//! What is remembered between runs: the current profile, the previous one and
//! those used most recently.
use crate::command::{outcome, FileModel, FileRead};
use crate::paths::{file_message, path_error};
use crate::platform::{copied, join_path, path_below, Platform};
use crate::text::{
    after_prefix, decimal, is_among, is_plain_line, law_lines_read_back, law_lines_separated, lemma_line_characters, lines,
    lines_of, number, or_else, same, strip_prefix, text_of, text_of_lines, texts,
};
use crate::utf8::lossy;
use vstd::prelude::*;

verus! {

/// How many recently used profiles are remembered.
pub const RECENT_LIMIT: usize = 8;

/// What is remembered between runs.
#[derive(Debug, PartialEq, Eq)]
pub struct State {
    pub current: Option<String>,
    pub previous: Option<String>,
    pub recent: Vec<String>,
}

pub struct StateModel {
    pub current: Option<Seq<char>>,
    pub previous: Option<Seq<char>>,
    pub recent: Seq<Seq<char>>,
}

impl View for State {
    type V = StateModel;

    open spec fn view(&self) -> StateModel {
        StateModel {
            current: text_of(self.current),
            previous: text_of(self.previous),
            recent: texts(self.recent@),
        }
    }
}

pub open spec fn empty_state() -> StateModel {
    StateModel { current: None, previous: None, recent: Seq::empty() }
}

impl Default for State {
    fn default() -> (result: Self)
        ensures
            result@ == empty_state(),
    {
        let result = State { current: None, previous: None, recent: Vec::new() };
        assert(result@.recent =~= Seq::empty());
        result
    }
}

/// At most so many of the recently used profiles as are remembered.
pub open spec fn newest(recent: Seq<Seq<char>>) -> Seq<Seq<char>> {
    if recent.len() > RECENT_LIMIT {
        recent.take(RECENT_LIMIT as int)
    } else {
        recent
    }
}

/// What is remembered once a profile was chosen: it is the current one and the
/// most recent; the one it replaces, if it is another, becomes the previous.
pub open spec fn switched(state: StateModel, profile: Seq<char>) -> StateModel {
    StateModel {
        current: Some(profile),
        previous: if state.current == Some(profile) {
            state.previous
        } else {
            state.current
        },
        recent: newest(seq![profile] + state.recent.filter(other_than(profile))),
    }
}

pub open spec fn other_than(profile: Seq<char>) -> spec_fn(Seq<char>) -> bool {
    |recent: Seq<char>| recent != profile
}

/// What follows the prefix, where the line starts with it and goes on.
pub open spec fn value_after(line: Seq<char>, prefix: Seq<char>) -> Option<Seq<char>> {
    match after_prefix(line, prefix) {
        Some(value) => if value.len() > 0 {
            Some(value)
        } else {
            None
        },
        None => None,
    }
}

/// The name and the value of an entry.
pub open spec fn entry_of(line: Seq<char>) -> Option<(Seq<char>, Seq<char>)> {
    match value_after(line, "current="@) {
        Some(value) => Some(("current"@, value)),
        None => match value_after(line, "previous="@) {
            Some(value) => Some(("previous"@, value)),
            None => match value_after(line, "recent="@) {
                Some(value) => Some(("recent"@, value)),
                None => None,
            },
        },
    }
}

pub open spec fn with_recent(state: StateModel, value: Seq<char>) -> StateModel {
    if state.recent.contains(value) {
        state
    } else {
        StateModel { recent: state.recent.push(value), ..state }
    }
}

/// What is remembered after one more line of the file.
pub open spec fn with_entry(state: StateModel, line: Seq<char>) -> StateModel {
    match entry_of(line) {
        Some((name, value)) => if name == "current"@ {
            StateModel { current: Some(value), ..state }
        } else if name == "previous"@ {
            StateModel { previous: Some(value), ..state }
        } else if name == "recent"@ {
            with_recent(state, value)
        } else {
            state
        },
        None => state,
    }
}

/// What the lines of the file say, one after the other.
pub open spec fn entries_in(lines: Seq<Seq<char>>) -> StateModel
    decreases lines.len(),
{
    if lines.len() == 0 {
        empty_state()
    } else {
        with_entry(entries_in(lines.drop_last()), lines.last())
    }
}

/// What the contents of the file say.
pub open spec fn state_of(contents: Seq<char>) -> StateModel {
    let state = entries_in(lines_of(contents));
    StateModel { recent: newest(state.recent), ..state }
}

/// The entries of the recently used profiles.
pub open spec fn recent_text(recent: Seq<Seq<char>>) -> Seq<char>
    decreases recent.len(),
{
    if recent.len() == 0 {
        Seq::empty()
    } else {
        recent_text(recent.drop_last()) + "recent="@ + recent.last() + "\n"@
    }
}

/// The contents of the file.
pub open spec fn contents_of(state: StateModel) -> Seq<char> {
    "current="@ + or_else(state.current, ""@) + "\nprevious="@ + or_else(state.previous, ""@) + "\n"@
        + recent_text(state.recent)
}

/// Takes over that a profile was chosen.
pub fn update_state(profile: &str, state: &mut State)
    ensures
        final(state)@ == switched(old(state)@, profile@),
{
    let ghost before = state@;
    let again = match &state.current {
        Some(current) => same(current.as_str(), profile),
        None => false,
    };
    if !again {
        state.previous = state.current.take();
        state.current = Some(profile.to_owned());
    }
    let ghost other = other_than(profile@);
    let mut recent: Vec<String> = Vec::new();
    recent.push(profile.to_owned());
    assert(before.recent.take(0).filter(other) =~= Seq::empty()) by {
        reveal(Seq::filter);
    }
    assert(texts(recent@) =~= seq![profile@] + before.recent.take(0).filter(other));
    for i in 0..state.recent.len()
        invariant
            texts(state.recent@) == before.recent,
            other == other_than(profile@),
            texts(recent@) == seq![profile@] + before.recent.take(i as int).filter(other),
    {
        let ghost sofar = texts(recent@);
        let ghost name = before.recent[i as int];
        assert(state.recent@[i as int]@ == name);
        assert(before.recent.take(i + 1).drop_last() =~= before.recent.take(i as int));
        assert(before.recent.take(i + 1).filter(other) == if other(name) {
            before.recent.take(i as int).filter(other).push(name)
        } else {
            before.recent.take(i as int).filter(other)
        }) by {
            reveal(Seq::filter);
        }
        if !same(state.recent[i].as_str(), profile) {
            recent.push(state.recent[i].clone());
            assert(texts(recent@) =~= sofar.push(name));
            assert(texts(recent@) =~= seq![profile@] + before.recent.take(i + 1).filter(other));
        }
    }
    assert(before.recent.take(before.recent.len() as int) =~= before.recent);
    let ghost full = texts(recent@);
    if recent.len() > RECENT_LIMIT {
        recent.truncate(RECENT_LIMIT);
        assert(texts(recent@) =~= full.take(RECENT_LIMIT as int));
    }
    state.recent = recent;
}

/// The name and the value of an entry.
pub fn state_entry<'a>(line: &'a str) -> (result: Option<(&'static str, &'a str)>)
    ensures
        match result {
            Some((name, value)) => entry_of(line@) == Some((name@, value@)),
            None => entry_of(line@) is None,
        },
{
    match strip_prefix(line, "current=") {
        Some(value) => {
            if !value.is_empty() {
                return Some(("current", value));
            }
        },
        None => {},
    }
    match strip_prefix(line, "previous=") {
        Some(value) => {
            if !value.is_empty() {
                return Some(("previous", value));
            }
        },
        None => {},
    }
    match strip_prefix(line, "recent=") {
        Some(value) => {
            if !value.is_empty() {
                return Some(("recent", value));
            }
        },
        None => {},
    }
    None
}

/// Remembers a recently used profile, unless it is remembered already.
pub fn add_recent(state: &mut State, value: &str)
    ensures
        final(state)@ == with_recent(old(state)@, value@),
{
    if !is_among(value, state.recent.as_slice()) {
        let ghost before = state@.recent;
        state.recent.push(value.to_owned());
        assert(state@.recent =~= before.push(value@));
    }
}

/// Takes over one line of the file.
pub fn apply_state_line(state: &mut State, line: &str)
    ensures
        final(state)@ == with_entry(old(state)@, line@),
{
    match state_entry(line) {
        Some((name, value)) => {
            if same(name, "current") {
                state.current = Some(value.to_owned());
            } else if same(name, "previous") {
                state.previous = Some(value.to_owned());
            } else if same(name, "recent") {
                add_recent(state, value);
            }
        },
        None => {},
    }
}

/// What the contents of the file say.
pub fn parse_state(contents: &str) -> (result: State)
    ensures
        result@ == state_of(contents@),
{
    let all = lines(contents);
    let mut state = State::default();
    for i in 0..all.len()
        invariant
            state@ == entries_in(texts(all@).take(i as int)),
    {
        assert(texts(all@).take(i + 1).drop_last() =~= texts(all@).take(i as int));
        apply_state_line(&mut state, all[i].as_str());
    }
    assert(texts(all@).take(all@.len() as int) =~= texts(all@));
    if state.recent.len() > RECENT_LIMIT {
        let ghost full = state@.recent;
        state.recent.truncate(RECENT_LIMIT);
        assert(state@.recent =~= full.take(RECENT_LIMIT as int));
    }
    state
}

/// The contents of the file.
pub fn render_state(state: &State) -> (result: String)
    ensures
        result@ == contents_of(state@),
{
    let mut contents = "current=".to_owned();
    match &state.current {
        Some(current) => contents.append(current.as_str()),
        None => contents.append(""),
    }
    contents.append("\nprevious=");
    match &state.previous {
        Some(previous) => contents.append(previous.as_str()),
        None => contents.append(""),
    }
    contents.append("\n");
    let ghost head = contents@;
    let ghost recent = state@.recent;
    assert(head + recent_text(recent.take(0)) =~= head);
    for i in 0..state.recent.len()
        invariant
            recent == texts(state.recent@),
            contents@ == head + recent_text(recent.take(i as int)),
    {
        assert(recent.take(i + 1).drop_last() =~= recent.take(i as int));
        contents.append("recent=");
        contents.append(state.recent[i].as_str());
        contents.append("\n");
        assert(contents@ =~= head + recent_text(recent.take(i + 1)));
    }
    assert(recent.take(recent.len() as int) =~= recent);
    contents
}

/// A name that the file gives back as it was: it goes on one line and does not
/// end in a carriage return, which a line loses.
pub open spec fn storable(name: Seq<char>) -> bool {
    name.len() > 0 && !name.contains('\n') && name.last() != '\r'
}

/// What can be remembered: storable names, none of them twice among the
/// recently used, of which there are at most so many.
pub open spec fn well_formed(state: StateModel) -> bool {
    &&& state.current matches Some(name) ==> storable(name)
    &&& state.previous matches Some(name) ==> storable(name)
    &&& forall|i: int| 0 <= i < state.recent.len() ==> storable(#[trigger] state.recent[i])
    &&& state.recent.no_duplicates()
    &&& state.recent.len() <= RECENT_LIMIT
}

/// What reading the state file gives: nothing is remembered where there is none.
pub open spec fn read_contents(path: Seq<u8>, read: FileModel) -> Result<Seq<char>, Seq<char>> {
    match read {
        FileModel::Contents(contents) => Ok(contents),
        FileModel::Missing => Ok(Seq::empty()),
        FileModel::Failed(error) => Err(file_message("read"@, lossy(path), error)),
    }
}

/// What is remembered, or the message of why that is unknown.
pub open spec fn loaded(result: Result<State, String>) -> Result<StateModel, Seq<char>> {
    match result {
        Ok(state) => Ok(state@),
        Err(message) => Err(message@),
    }
}

/// What is remembered, by what reading the state file gave.
pub open spec fn state_read(path: Seq<u8>, read: FileModel) -> Result<StateModel, Seq<char>> {
    match read_contents(path, read) {
        Ok(contents) => Ok(state_of(contents)),
        Err(message) => Err(message),
    }
}

/// What reading the state file gives.
pub fn read_state(path: &[u8], read: &FileRead) -> (result: Result<String, String>)
    ensures
        outcome(result) == read_contents(path@, read@),
{
    match read {
        FileRead::Contents(contents) => Ok(contents.clone()),
        FileRead::Missing => Ok(String::new()),
        FileRead::Failed(error) => Err(path_error("read", path, error.as_str())),
    }
}

/// What is remembered, by what reading the state file gave.
pub fn load_state(path: &[u8], read: &FileRead) -> (result: Result<State, String>)
    ensures
        loaded(result) == state_read(path@, read@),
{
    match read_state(path, read) {
        Ok(contents) => Ok(parse_state(contents.as_str())),
        Err(message) => Err(message),
    }
}

/// What to write so that the state is remembered: once the directory is there,
/// the contents go to a temporary file, which then replaces the state file.
#[derive(Debug, Clone, PartialEq, Eq)]
pub struct Save {
    pub directory: Vec<u8>,
    pub temporary: Vec<u8>,
    pub path: Vec<u8>,
    pub contents: String,
}

pub struct SaveModel {
    pub directory: Seq<u8>,
    pub temporary: Seq<u8>,
    pub path: Seq<u8>,
    pub contents: Seq<char>,
}

impl View for Save {
    type V = SaveModel;

    open spec fn view(&self) -> SaveModel {
        SaveModel {
            directory: self.directory@,
            temporary: self.temporary@,
            path: self.path@,
            contents: self.contents@,
        }
    }
}

/// The step at which a state could not be written.
#[derive(Debug, Clone, PartialEq, Eq)]
pub enum SaveFailure {
    Create(String),
    Write(String),
    Update(String),
}

pub enum SaveFailureModel {
    Create(Seq<char>),
    Write(Seq<char>),
    Update(Seq<char>),
}

impl View for SaveFailure {
    type V = SaveFailureModel;

    open spec fn view(&self) -> SaveFailureModel {
        match self {
            SaveFailure::Create(error) => SaveFailureModel::Create(error@),
            SaveFailure::Write(error) => SaveFailureModel::Write(error@),
            SaveFailure::Update(error) => SaveFailureModel::Update(error@),
        }
    }
}

/// The temporary file of a process.
pub open spec fn temporary_name(process: u32) -> Seq<char> {
    ".state."@ + decimal(process as nat) + ".tmp"@
}

/// How a process writes the state below a directory.
pub open spec fn saving(
    state: StateModel,
    platform: Platform,
    directory: Seq<u8>,
    process: u32,
) -> SaveModel {
    SaveModel {
        directory,
        temporary: path_below(platform, directory, temporary_name(process)),
        path: path_below(platform, directory, "state"@),
        contents: contents_of(state),
    }
}

/// The message of a state that could not be written.
pub open spec fn save_message(save: SaveModel, failure: SaveFailureModel) -> Seq<char> {
    match failure {
        SaveFailureModel::Create(error) => file_message("create"@, lossy(save.directory), error),
        SaveFailureModel::Write(error) => file_message("write"@, lossy(save.temporary), error),
        SaveFailureModel::Update(error) => file_message("update"@, lossy(save.path), error),
    }
}

/// How a process writes the state below a directory.
pub fn save_state(
    state: &State,
    platform: Platform,
    directory: &[u8],
    process: u32,
) -> (result: Save)
    ensures
        result@ == saving(state@, platform, directory@, process),
{
    let shown = number(process as usize);
    let mut temporary = ".state.".to_owned();
    temporary.append(shown.as_str());
    temporary.append(".tmp");
    Save {
        directory: copied(directory),
        temporary: join_path(platform, directory, temporary.as_str()),
        path: join_path(platform, directory, "state"),
        contents: render_state(state),
    }
}

/// The message of a state that could not be written.
pub fn save_error(save: &Save, failure: &SaveFailure) -> (result: String)
    ensures
        result@ == save_message(save@, failure@),
{
    match failure {
        SaveFailure::Create(error) => path_error(
            "create",
            save.directory.as_slice(),
            error.as_str(),
        ),
        SaveFailure::Write(error) => path_error("write", save.temporary.as_slice(), error.as_str()),
        SaveFailure::Update(error) => path_error("update", save.path.as_slice(), error.as_str()),
    }
}

/// The lines of the file.
spec fn entry_lines(state: StateModel) -> Seq<Seq<char>> {
    seq![
        "current="@ + or_else(state.current, ""@),
        "previous="@ + or_else(state.previous, ""@),
    ] + recent_lines(state.recent)
}

spec fn recent_lines(recent: Seq<Seq<char>>) -> Seq<Seq<char>> {
    recent.map_values(|name: Seq<char>| "recent="@ + name)
}

proof fn lemma_plain(prefix: Seq<char>, name: Seq<char>)
    requires
        prefix.len() > 0,
        prefix.last() == '=',
        !prefix.contains('\n'),
        name.len() == 0 || storable(name),
    ensures
        is_plain_line(prefix + name),
{
    let line = prefix + name;
    if line.contains('\n') {
        let k = choose|k: int| 0 <= k < line.len() && line[k] == '\n';
        if k < prefix.len() {
            assert(prefix[k] == '\n');
        } else {
            assert(name[k - prefix.len()] == '\n');
        }
    }
    if name.len() == 0 {
        assert(line =~= prefix);
    } else {
        assert(line.last() == name.last());
    }
}

proof fn lemma_recent_text(recent: Seq<Seq<char>>)
    ensures
        recent_text(recent) == text_of_lines(recent_lines(recent)),
    decreases recent.len(),
{
    reveal_strlit("\n");
    assert("\n"@ =~= seq!['\n']);
    let lines = recent_lines(recent);
    if recent.len() > 0 {
        lemma_recent_text(recent.drop_last());
        assert(lines.drop_last() =~= recent_lines(recent.drop_last()));
        let start = recent_text(recent.drop_last());
        assert(start + "recent="@ + recent.last() + "\n"@ =~= start + ("recent="@ + recent.last())
            + seq!['\n']);
    }
}

proof fn lemma_lines_join(left: Seq<Seq<char>>, right: Seq<Seq<char>>)
    ensures
        text_of_lines(left + right) == text_of_lines(left) + text_of_lines(right),
    decreases right.len(),
{
    if right.len() == 0 {
        assert(left + right =~= left);
        assert(text_of_lines(left) + text_of_lines(right) =~= text_of_lines(left));
    } else {
        lemma_lines_join(left, right.drop_last());
        assert((left + right).drop_last() =~= left + right.drop_last());
        assert(text_of_lines(left) + text_of_lines(right.drop_last()) + right.last() + seq!['\n']
            =~= text_of_lines(left) + text_of_lines(right));
    }
}

proof fn lemma_contents(state: StateModel)
    ensures
        contents_of(state) == text_of_lines(entry_lines(state)),
{
    reveal_strlit("\n");
    reveal_strlit("\nprevious=");
    reveal_strlit("previous=");
    let first = "current="@ + or_else(state.current, ""@);
    let second = "previous="@ + or_else(state.previous, ""@);
    let head = seq![first, second];
    lemma_recent_text(state.recent);
    lemma_lines_join(head, recent_lines(state.recent));
    reveal_with_fuel(text_of_lines, 3);
    assert(head.drop_last() =~= seq![first]);
    assert(seq![first].drop_last() =~= Seq::empty());
    assert(text_of_lines(head) == (Seq::<char>::empty() + first + seq!['\n']) + second + seq!['\n']);
    assert("\nprevious="@ =~= seq!['\n'] + "previous="@);
    assert("\n"@ =~= seq!['\n']);
    assert("current="@ + or_else(state.current, ""@) + "\nprevious="@ + or_else(state.previous, ""@)
        + "\n"@ =~= text_of_lines(head));
}

proof fn lemma_prefixes()
    ensures
        forall|name: Seq<char>| #![trigger "previous="@ + name] {
            &&& !"current="@.is_prefix_of("previous="@ + name)
            &&& "previous="@.is_prefix_of("previous="@ + name)
            &&& ("previous="@ + name).skip("previous="@.len() as int) == name
        },
        forall|name: Seq<char>| #![trigger "current="@ + name] {
            &&& "current="@.is_prefix_of("current="@ + name)
            &&& ("current="@ + name).skip("current="@.len() as int) == name
            &&& !"previous="@.is_prefix_of("current="@ + name)
            &&& !"recent="@.is_prefix_of("current="@ + name)
        },
        forall|name: Seq<char>| #![trigger "recent="@ + name] {
            &&& "recent="@.is_prefix_of("recent="@ + name)
            &&& ("recent="@ + name).skip("recent="@.len() as int) == name
            &&& !"previous="@.is_prefix_of("recent="@ + name)
            &&& !"current="@.is_prefix_of("recent="@ + name)
        },
        forall|name: Seq<char>| #![trigger "previous="@ + name] !"recent="@.is_prefix_of(
            "previous="@ + name,
        ),
        "current"@ != "previous"@,
        "current"@ != "recent"@,
        "previous"@ != "recent"@,
{
    reveal_strlit("current=");
    reveal_strlit("previous=");
    reveal_strlit("recent=");
    reveal_strlit("current");
    reveal_strlit("previous");
    reveal_strlit("recent");
    assert("current"@[0] != "previous"@[0]);
    assert("current"@[0] != "recent"@[0]);
    assert("previous"@[0] != "recent"@[0]);
    assert forall|name: Seq<char>| #![trigger "previous="@ + name] {
        &&& !"current="@.is_prefix_of("previous="@ + name)
        &&& "previous="@.is_prefix_of("previous="@ + name)
        &&& ("previous="@ + name).skip("previous="@.len() as int) == name
    } by {
        let line = "previous="@ + name;
        assert(line[0] == 'p');
        assert(line.take("previous="@.len() as int) =~= "previous="@);
        assert(line.skip("previous="@.len() as int) =~= name);
        if "current="@.is_prefix_of(line) {
            assert("current="@[0] == line[0]);
        }
    }
    assert forall|name: Seq<char>| #![trigger "previous="@ + name] !"recent="@.is_prefix_of(
        "previous="@ + name,
    ) by {
        let line = "previous="@ + name;
        assert(line[0] == 'p');
        if "recent="@.is_prefix_of(line) {
            assert("recent="@[0] == line[0]);
        }
    }
    assert forall|name: Seq<char>| #![trigger "current="@ + name] {
        &&& "current="@.is_prefix_of("current="@ + name)
        &&& ("current="@ + name).skip("current="@.len() as int) == name
        &&& !"previous="@.is_prefix_of("current="@ + name)
        &&& !"recent="@.is_prefix_of("current="@ + name)
    } by {
        let line = "current="@ + name;
        assert(line[0] == 'c');
        assert(line.take("current="@.len() as int) =~= "current="@);
        assert(line.skip("current="@.len() as int) =~= name);
        if "previous="@.is_prefix_of(line) {
            assert("previous="@[0] == line[0]);
        }
        if "recent="@.is_prefix_of(line) {
            assert("recent="@[0] == line[0]);
        }
    }
    assert forall|name: Seq<char>| #![trigger "recent="@ + name] {
        &&& "recent="@.is_prefix_of("recent="@ + name)
        &&& ("recent="@ + name).skip("recent="@.len() as int) == name
        &&& !"previous="@.is_prefix_of("recent="@ + name)
        &&& !"current="@.is_prefix_of("recent="@ + name)
    } by {
        let line = "recent="@ + name;
        assert(line[0] == 'r');
        assert(line.take("recent="@.len() as int) =~= "recent="@);
        assert(line.skip("recent="@.len() as int) =~= name);
        if "previous="@.is_prefix_of(line) {
            assert("previous="@[0] == line[0]);
        }
        if "current="@.is_prefix_of(line) {
            assert("current="@[0] == line[0]);
        }
    }
}

proof fn lemma_entries(state: StateModel, count: int)
    requires
        well_formed(state),
        0 <= count <= state.recent.len(),
    ensures
        entries_in(
            seq![
                "current="@ + or_else(state.current, ""@),
                "previous="@ + or_else(state.previous, ""@),
            ] + recent_lines(state.recent).take(count),
        ) == (StateModel { recent: state.recent.take(count), ..state }),
    decreases count,
{
    reveal_strlit("");
    lemma_prefixes();
    let first = "current="@ + or_else(state.current, ""@);
    let second = "previous="@ + or_else(state.previous, ""@);
    let head = seq![first, second];
    let lines = head + recent_lines(state.recent).take(count);
    if count == 0 {
        assert(lines =~= head);
        assert(head.drop_last() =~= seq![first]);
        assert(seq![first].drop_last() =~= Seq::empty());
        reveal_with_fuel(entries_in, 3);
        assert(entries_in(seq![first]) == (StateModel { current: state.current, ..empty_state() }));
        assert(state.recent.take(0) =~= Seq::empty());
        assert(entries_in(head) == (StateModel { recent: Seq::empty(), ..state }));
    } else {
        lemma_entries(state, count - 1);
        let name = state.recent[count - 1];
        assert(storable(name));
        assert(lines.drop_last() =~= head + recent_lines(state.recent).take(count - 1));
        assert(lines.last() == "recent="@ + name);
        let earlier = state.recent.take(count - 1);
        assert(!earlier.contains(name)) by {
            if earlier.contains(name) {
                let k = choose|k: int| 0 <= k < earlier.len() && earlier[k] == name;
                assert(state.recent[k] == state.recent[count - 1]);
            }
        }
        assert(state.recent.take(count) =~= earlier.push(name));
    }
}

/// What is remembered is read back from the file as it was written.
pub proof fn law_state_round_trip(state: StateModel)
    requires
        well_formed(state),
    ensures
        state_of(contents_of(state)) == state,
{
    lemma_contents(state);
    let lines = entry_lines(state);
    reveal_strlit("");
    assert forall|i: int| 0 <= i < lines.len() implies is_plain_line(#[trigger] lines[i]) by {
        reveal_strlit("current=");
        reveal_strlit("previous=");
        reveal_strlit("recent=");
        if i == 0 {
            lemma_plain("current="@, or_else(state.current, ""@));
        } else if i == 1 {
            lemma_plain("previous="@, or_else(state.previous, ""@));
        } else {
            assert(storable(state.recent[i - 2]));
            lemma_plain("recent="@, state.recent[i - 2]);
        }
    }
    law_lines_read_back(lines);
    lemma_entries(state, state.recent.len() as int);
    assert(recent_lines(state.recent).take(state.recent.len() as int) =~= recent_lines(state.recent));
    assert(state.recent.take(state.recent.len() as int) =~= state.recent);
}

proof fn lemma_filter(list: Seq<Seq<char>>, keep: spec_fn(Seq<char>) -> bool)
    ensures
        list.filter(keep).len() <= list.len(),
        forall|name: Seq<char>| #[trigger]
            list.filter(keep).contains(name) <==> list.contains(name) && keep(name),
        list.no_duplicates() ==> list.filter(keep).no_duplicates(),
    decreases list.len(),
{
    reveal(Seq::filter);
    if list.len() > 0 {
        let fewer = list.drop_last();
        let kept = fewer.filter(keep);
        lemma_filter(fewer, keep);
        assert(list.filter(keep) == if keep(list.last()) {
            kept.push(list.last())
        } else {
            kept
        });
        assert forall|name: Seq<char>| #[trigger]
            list.filter(keep).contains(name) <==> list.contains(name) && keep(name) by {
            if list.contains(name) && keep(name) {
                let k = choose|k: int| 0 <= k < list.len() && list[k] == name;
                if k < fewer.len() {
                    assert(fewer[k] == name);
                    assert(kept.contains(name));
                    let j = choose|j: int| 0 <= j < kept.len() && kept[j] == name;
                    assert(list.filter(keep)[j] == name);
                } else {
                    assert(list.filter(keep).last() == name);
                }
            }
            if list.filter(keep).contains(name) {
                let k = choose|k: int|
                    0 <= k < list.filter(keep).len() && list.filter(keep)[k] == name;
                if k < kept.len() {
                    assert(kept.contains(kept[k]));
                    let j = choose|j: int| 0 <= j < fewer.len() && fewer[j] == name;
                    assert(list[j] == name);
                } else {
                    assert(list[list.len() - 1] == name);
                }
            }
        }
        if list.no_duplicates() {
            assert(fewer.no_duplicates());
            if keep(list.last()) {
                assert forall|i: int, j: int|
                    0 <= i < j < list.filter(keep).len() implies #[trigger] list.filter(keep)[i]
                    != #[trigger] list.filter(keep)[j] by {
                    if j == kept.len() {
                        assert(kept.contains(kept[i]));
                        let k = choose|k: int| 0 <= k < fewer.len() && fewer[k] == kept[i];
                        assert(list[k] != list[list.len() - 1]);
                    }
                }
            }
        }
    }
}

/// Once a profile was chosen it is the current one and the first of the recent
/// ones; at most eight are remembered, none twice if none was before, and none
/// but the profile itself that was not remembered before.
pub proof fn law_switch(state: StateModel, profile: Seq<char>)
    ensures
        switched(state, profile).current == Some(profile),
        switched(state, profile).recent.len() > 0,
        switched(state, profile).recent[0] == profile,
        switched(state, profile).recent.len() <= 8,
        state.recent.no_duplicates() ==> switched(state, profile).recent.no_duplicates(),
        forall|name: Seq<char>| #[trigger]
            switched(state, profile).recent.contains(name) ==> name == profile
                || state.recent.contains(name),
{
    let other = other_than(profile);
    let kept = state.recent.filter(other);
    lemma_filter(state.recent, other);
    let full = seq![profile] + kept;
    let after = switched(state, profile).recent;
    assert forall|name: Seq<char>| #[trigger] after.contains(name) implies name == profile
        || state.recent.contains(name) by {
        let k = choose|k: int| 0 <= k < after.len() && after[k] == name;
        assert(full[k] == name);
        if k > 0 {
            assert(kept[k - 1] == name);
            assert(kept.contains(name));
        }
    }
    if state.recent.no_duplicates() {
        assert forall|i: int, j: int| 0 <= i < j < after.len() implies #[trigger] after[i]
            != #[trigger] after[j] by {
            assert(after[j] == kept[j - 1]);
            assert(kept.contains(kept[j - 1]));
            if i > 0 {
                assert(after[i] == kept[i - 1]);
            }
        }
    }
}

/// What can be written and read back can still be once a profile was chosen
/// whose name can.
pub proof fn law_switch_well_formed(state: StateModel, profile: Seq<char>)
    requires
        well_formed(state),
        storable(profile),
    ensures
        well_formed(switched(state, profile)),
{
    law_switch(state, profile);
    let after = switched(state, profile).recent;
    assert forall|i: int| 0 <= i < after.len() implies storable(#[trigger] after[i]) by {
        assert(after.contains(after[i]));
        if after[i] != profile {
            let k = choose|k: int| 0 <= k < state.recent.len() && state.recent[k] == after[i];
            assert(storable(state.recent[k]));
        }
    }
}

/// Choosing another profile makes the current one the previous; choosing that
/// one again swaps the two back.
pub proof fn law_switch_back(state: StateModel, current: Seq<char>, profile: Seq<char>)
    requires
        state.current == Some(current),
        profile != current,
    ensures
        switched(state, profile).previous == Some(current),
        switched(switched(state, profile), current).current == Some(current),
        switched(switched(state, profile), current).previous == Some(profile),
{
}

/// Choosing the current profile again changes nothing that is remembered.
pub proof fn law_switch_again(state: StateModel, profile: Seq<char>)
    ensures
        switched(switched(state, profile), profile) == switched(state, profile),
{
    let other = other_than(profile);
    let once = switched(state, profile);
    let kept = state.recent.filter(other);
    let rest = once.recent.drop_first();
    lemma_filter(state.recent, other);
    law_switch(state, profile);
    assert(once.recent =~= seq![profile] + rest);
    assert forall|i: int| 0 <= i < rest.len() implies other(#[trigger] rest[i]) by {
        assert(rest[i] == kept[i]);
        assert(kept.contains(kept[i]));
    }
    lemma_filter_all(rest, other);
    lemma_filter_behind(profile, rest, other);
    assert(once.recent.filter(other) == rest);
    assert(switched(once, profile).recent =~= once.recent);
}

proof fn lemma_filter_all(list: Seq<Seq<char>>, keep: spec_fn(Seq<char>) -> bool)
    requires
        forall|i: int| 0 <= i < list.len() ==> keep(#[trigger] list[i]),
    ensures
        list.filter(keep) == list,
    decreases list.len(),
{
    reveal(Seq::filter);
    if list.len() > 0 {
        lemma_filter_all(list.drop_last(), keep);
        assert(list.drop_last().push(list.last()) =~= list);
    } else {
        assert(list.filter(keep) =~= list);
    }
}

proof fn lemma_filter_behind(
    name: Seq<char>,
    list: Seq<Seq<char>>,
    keep: spec_fn(Seq<char>) -> bool,
)
    requires
        !keep(name),
    ensures
        (seq![name] + list).filter(keep) == list.filter(keep),
    decreases list.len(),
{
    reveal(Seq::filter);
    let whole = seq![name] + list;
    if list.len() > 0 {
        lemma_filter_behind(name, list.drop_last(), keep);
        assert(whole.drop_last() =~= seq![name] + list.drop_last());
    } else {
        assert(whole.drop_last() =~= list);
        assert(whole.last() == name);
        assert(list.filter(keep) =~= Seq::empty());
    }
}

/// Whatever the file holds, at most eight recent profiles are read from it, none
/// twice and none without a name, and no name holds a line feed.
pub proof fn law_state_read(contents: Seq<char>)
    ensures
        state_of(contents).recent.len() <= 8,
        state_of(contents).recent.no_duplicates(),
        forall|i: int|
            0 <= i < state_of(contents).recent.len() ==> is_name(
                #[trigger] state_of(contents).recent[i],
            ),
        state_of(contents).current matches Some(name) ==> is_name(name),
        state_of(contents).previous matches Some(name) ==> is_name(name),
{
    law_lines_separated(contents);
    lemma_names(lines_of(contents));
}

/// A name that a line of the file can hold.
pub open spec fn is_name(name: Seq<char>) -> bool {
    name.len() > 0 && !name.contains('\n')
}

proof fn lemma_names(lines: Seq<Seq<char>>)
    requires
        forall|i: int| 0 <= i < lines.len() ==> !(#[trigger] lines[i]).contains('\n'),
    ensures
        entries_in(lines).recent.no_duplicates(),
        forall|i: int|
            0 <= i < entries_in(lines).recent.len() ==> is_name(
                #[trigger] entries_in(lines).recent[i],
            ),
        entries_in(lines).current matches Some(name) ==> is_name(name),
        entries_in(lines).previous matches Some(name) ==> is_name(name),
    decreases lines.len(),
{
    if lines.len() > 0 {
        let line = lines.last();
        assert forall|i: int| 0 <= i < lines.drop_last().len() implies !(
        #[trigger] lines.drop_last()[i]).contains('\n') by {
            assert(!lines[i].contains('\n'));
        }
        lemma_names(lines.drop_last());
        assert(!lines[lines.len() - 1].contains('\n'));
        match entry_of(line) {
            Some((name, value)) => {
                if value.contains('\n') {
                    let k = choose|k: int| 0 <= k < value.len() && value[k] == '\n';
                    let start = line.len() - value.len();
                    assert(line[start + k] == '\n');
                }
            },
            None => {},
        }
    }
}

/// What was read from a file without carriage returns is written and read back
/// the same.
pub proof fn law_state_stable(contents: Seq<char>)
    requires
        !contents.contains('\r'),
    ensures
        state_of(contents_of(state_of(contents))) == state_of(contents),
{
    law_state_read(contents);
    let lines = lines_of(contents);
    assert forall|i: int, character: char|
        0 <= i < lines.len() && #[trigger] lines[i].contains(character) implies character != '\r' by {
        lemma_line_characters(contents, i, character);
    }
    lemma_no_returns(lines);
    law_state_round_trip(state_of(contents));
}

proof fn lemma_no_returns(lines: Seq<Seq<char>>)
    requires
        forall|i: int, character: char|
            0 <= i < lines.len() && #[trigger] lines[i].contains(character) ==> character != '\r',
    ensures
        forall|i: int|
            0 <= i < entries_in(lines).recent.len() ==> !(#[trigger] entries_in(
                lines,
            ).recent[i]).contains('\r'),
        entries_in(lines).current matches Some(name) ==> !name.contains('\r'),
        entries_in(lines).previous matches Some(name) ==> !name.contains('\r'),
    decreases lines.len(),
{
    if lines.len() > 0 {
        let fewer = lines.drop_last();
        let line = lines.last();
        assert forall|i: int, character: char|
            0 <= i < fewer.len() && #[trigger] fewer[i].contains(character) implies character
            != '\r' by {
            assert(lines[i].contains(character));
        }
        lemma_no_returns(fewer);
        match entry_of(line) {
            Some((name, value)) => {
                if value.contains('\r') {
                    let k = choose|k: int| 0 <= k < value.len() && value[k] == '\r';
                    assert(line[line.len() - value.len() + k] == '\r');
                    assert(lines[lines.len() - 1].contains('\r'));
                }
            },
            None => {},
        }
    }
}

} // verus!
