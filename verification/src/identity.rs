//! Who AWS says the caller is.
use crate::json::{parsed_bytes, text_at, Document, Tree};
use crate::text::{after_last, cut, or_else, pieces, slice_of, split_once};
use vstd::prelude::*;

verus! {

/// Who AWS says the caller is.
#[derive(Debug, Clone, PartialEq, Eq)]
pub struct Identity {
    pub account: String,
    pub arn: String,
    pub user_id: String,
}

pub struct IdentityModel {
    pub account: Seq<char>,
    pub arn: Seq<char>,
    pub user_id: Seq<char>,
}

impl View for Identity {
    type V = IdentityModel;

    open spec fn view(&self) -> IdentityModel {
        IdentityModel { account: self.account@, arn: self.arn@, user_id: self.user_id@ }
    }
}

impl Default for Identity {
    fn default() -> (result: Self)
        ensures
            result@ == (IdentityModel {
                account: Seq::empty(),
                arn: Seq::empty(),
                user_id: Seq::empty(),
            }),
    {
        Identity { account: String::new(), arn: String::new(), user_id: String::new() }
    }
}

/// The short name of a caller: of an assumed role, the role and its session;
/// else what follows the last slash.
pub open spec fn short_name(arn: Seq<char>) -> Seq<char> {
    match split_once(arn, ":assumed-role/"@) {
        Some((_, name)) => name,
        None => pieces(arn, '/').last(),
    }
}

impl Identity {
    /// The same once more.
    pub fn copy(&self) -> (result: Identity)
        ensures
            result@ == self@,
    {
        Identity {
            account: self.account.clone(),
            arn: self.arn.clone(),
            user_id: self.user_id.clone(),
        }
    }

    /// The short name of the caller.
    pub fn display_name(&self) -> (result: &str)
        ensures
            result@ == short_name(self.arn@),
    {
        match cut(self.arn.as_str(), ":assumed-role/") {
            Some((_, name)) => name,
            None => after_last(self.arn.as_str(), '/'),
        }
    }
}

/// The identity that a reply of AWS states; what it leaves out is empty.
pub open spec fn stated(
    account: Option<Seq<char>>,
    arn: Option<Seq<char>>,
    user_id: Option<Seq<char>>,
) -> IdentityModel {
    IdentityModel {
        account: or_else(account, Seq::empty()),
        arn: or_else(arn, Seq::empty()),
        user_id: or_else(user_id, Seq::empty()),
    }
}

/// The identity in a reply.
pub open spec fn identity_in(reply: Tree) -> IdentityModel {
    stated(text_at(reply, "Account"@), text_at(reply, "Arn"@), text_at(reply, "UserId"@))
}

/// What the bytes of a reply say of the caller, or the message of the error.
pub open spec fn identity_of(bytes: Seq<u8>) -> Result<IdentityModel, Seq<char>> {
    match parsed_bytes(bytes) {
        Ok(reply) => Ok(identity_in(reply)),
        Err(error) => Err("AWS returned invalid identity JSON: "@ + error),
    }
}

pub open spec fn identified(result: Result<Identity, String>) -> Result<IdentityModel, Seq<char>> {
    match result {
        Ok(identity) => Ok(identity@),
        Err(message) => Err(message@),
    }
}

/// The text, or none where it is missing.
fn text_or_empty(text: Option<&str>) -> (result: String)
    ensures
        result@ == or_else(slice_of(text), Seq::empty()),
{
    match text {
        Some(text) => text.to_owned(),
        None => String::new(),
    }
}

/// The identity that a reply of AWS states; what it leaves out is empty.
pub fn state_identity(account: Option<&str>, arn: Option<&str>, user_id: Option<&str>) -> (result:
    Identity)
    ensures
        result@ == stated(slice_of(account), slice_of(arn), slice_of(user_id)),
{
    Identity {
        account: text_or_empty(account),
        arn: text_or_empty(arn),
        user_id: text_or_empty(user_id),
    }
}

/// What the bytes of a reply say of the caller.
pub fn parse_identity(bytes: &[u8]) -> (result: Result<Identity, String>)
    ensures
        identified(result) == identity_of(bytes@),
{
    match Document::from_bytes(bytes) {
        Ok(document) => Ok(
            state_identity(
                document.string("Account"),
                document.string("Arn"),
                document.string("UserId"),
            ),
        ),
        Err(error) => {
            let mut message = "AWS returned invalid identity JSON: ".to_owned();
            message.append(error.as_str());
            Err(message)
        },
    }
}

} // verus!
