//! What is particular to Deluge.

use vstd::prelude::*;
use vstd::string::StringExecFns;
use crate::string_set::StringSet;
use crate::uniq::{first_appearances, lemma_first_appearances};
use crate::text::{lowercase_of, render_signed, signed_decimal, to_lowercase};

verus! {

/// A transfer as Deluge lists it.
#[derive(Debug, Default, PartialEq, Eq)]
pub struct Torrent {
    pub name: String,
}

/// The hashes in lower case. The library managers record hashes in upper
/// case, and Deluge only finds them in lower case.
pub fn hashes_to_lower(hashes: &StringSet) -> (lowered: StringSet)
    ensures
        lowered.order() == first_appearances(
            hashes.order().map_values(|h: Seq<char>| lowercase_of(h)),
        ),
        lowered@ == hashes.order().map_values(|h: Seq<char>| lowercase_of(h)).to_set(),
{
    let items: &[String] = hashes.as_slice();
    let ghost all = hashes.order().map_values(|h: Seq<char>| lowercase_of(h));
    let mut lowered = StringSet::new();
    let mut i: usize = 0;
    while i < items.len()
        invariant
            i <= items.len(),
            items@.map_values(|s: String| s@) == hashes.order(),
            all == hashes.order().map_values(|h: Seq<char>| lowercase_of(h)),
            lowered.order() == first_appearances(all.take(i as int)),
        decreases items.len() - i,
    {
        let ghost done = all.take(i as int);
        let low: String = to_lowercase(items[i].as_str());
        assert(low@ == all[i as int]) by {
            assert(items@.map_values(|s: String| s@)[i as int] == items@[i as int]@);
        }
        lowered.insert(low);
        assert(all.take(i + 1).drop_last() =~= done);
        i += 1;
    }
    proof {
        assert(all.take(i as int) =~= all);
        lemma_first_appearances(all);
    }
    lowered
}

/// What Deluge is asked to do.
#[derive(Debug)]
pub enum DelugeRequest<'a> {
    /// Open a session with the password.
    Login(&'a str),
    /// Say which of the transfers with these hashes it is seeding.
    ListTorrents(&'a StringSet),
    /// Remove the transfers with these hashes, and their files.
    DeleteTorrents(&'a StringSet),
}

/// The parameters of a call of Deluge's interface.
#[derive(Debug)]
pub enum DelugeParams {
    /// The password.
    Login { password: String },
    /// A filter by hash and state, and the fields to hand back.
    Status { ids: StringSet, states: Vec<String>, fields: Vec<String> },
    /// The hashes to remove, and whether the files go too.
    Remove { ids: StringSet, remove_data: bool },
}

/// A call of Deluge's interface: the method, its parameters, and the number
/// by which the answer is told apart.
#[derive(Debug)]
pub struct DelugeCall {
    pub method: String,
    pub params: DelugeParams,
    pub id: u64,
}

/// The method that a request calls.
pub open spec fn method_of(request: DelugeRequest) -> Seq<char> {
    match request {
        DelugeRequest::Login(_) => "auth.login"@,
        DelugeRequest::ListTorrents(_) => "core.get_torrents_status"@,
        DelugeRequest::DeleteTorrents(_) => "core.remove_torrents"@,
    }
}

/// The hashes as Deluge is given them: in lower case, each once.
pub open spec fn lowered(hashes: StringSet) -> Seq<Seq<char>> {
    first_appearances(hashes.order().map_values(|h: Seq<char>| lowercase_of(h)))
}

impl<'a> DelugeRequest<'a> {
    /// The call that carries the request out. Transfers are looked for
    /// among those that are seeding, and removed together with their files;
    /// hashes go out in lower case.
    pub fn to_call(&self) -> (call: DelugeCall)
        ensures
            call.method@ == method_of(*self),
            call.id == 1,
            match *self {
                DelugeRequest::Login(password) => call.params matches DelugeParams::Login {
                    password: sent,
                } && sent@ == password@,
                DelugeRequest::ListTorrents(hashes) => call.params matches DelugeParams::Status {
                    ids,
                    states,
                    fields,
                } && ids.order() == lowered(*hashes) && states@.len() == 1 && states@[0]@
                    == "Seeding"@ && fields@.len() == 2 && fields@[0]@ == "name"@ && fields@[1]@
                    == "state"@,
                DelugeRequest::DeleteTorrents(hashes) => call.params matches DelugeParams::Remove {
                    ids,
                    remove_data,
                } && ids.order() == lowered(*hashes) && remove_data,
            },
    {
        match self {
            DelugeRequest::Login(password) => DelugeCall {
                method: String::from_str("auth.login"),
                params: DelugeParams::Login { password: String::from_str(password) },
                id: 1,
            },
            DelugeRequest::ListTorrents(hashes) => {
                let mut states: Vec<String> = Vec::new();
                states.push(String::from_str("Seeding"));
                let mut fields: Vec<String> = Vec::new();
                fields.push(String::from_str("name"));
                fields.push(String::from_str("state"));
                DelugeCall {
                    method: String::from_str("core.get_torrents_status"),
                    params: DelugeParams::Status { ids: hashes_to_lower(hashes), states, fields },
                    id: 1,
                }
            },
            DelugeRequest::DeleteTorrents(hashes) => DelugeCall {
                method: String::from_str("core.remove_torrents"),
                params: DelugeParams::Remove { ids: hashes_to_lower(hashes), remove_data: true },
                id: 1,
            },
        }
    }
}

/// An error as Deluge reports it.
#[derive(Debug, PartialEq, Eq)]
pub struct DelugeError {
    pub message: String,
    pub code: i64,
}

/// What the `result` of an answer holds.
#[derive(Clone, Copy, Debug, PartialEq, Eq, Structural)]
pub enum ResultKind {
    /// Nothing.
    Absent,
    /// The value `false`.
    False,
    /// Any other value.
    Value,
}

/// Why an answer of Deluge counts as a failure.
#[derive(Debug, PartialEq, Eq)]
pub enum DelugeFailure {
    /// The answer holds an error.
    Api { message: String, code: i64 },
    /// The answer holds no error, but its result is `false`.
    Falsy,
}

/// The words for a failure.
pub open spec fn failure_text(failure: DelugeFailure) -> Seq<char> {
    match failure {
        DelugeFailure::Api { message, code } => "failed to call Deluge api: "@ + message@
            + " (error code "@ + signed_decimal(code as int) + ")"@,
        DelugeFailure::Falsy => "Deluge API returned falsy response"@,
    }
}

impl DelugeFailure {
    /// The failure in words.
    pub fn message(&self) -> (text: String)
        ensures
            text@ == failure_text(*self),
    {
        match self {
            DelugeFailure::Api { message, code } => {
                let mut text: String = String::from_str("failed to call Deluge api: ");
                text.append(message.as_str());
                text.append(" (error code ");
                let digits: String = render_signed(*code);
                text.append(digits.as_str());
                text.append(")");
                text
            },
            DelugeFailure::Falsy => String::from_str("Deluge API returned falsy response"),
        }
    }
}

/// Judges an answer of Deluge: an error in it is a failure, and so is a
/// result that is `false`. Otherwise it says whether there is a result to
/// read.
pub fn check_response(error: Option<DelugeError>, result: ResultKind) -> (checked: Result<
    bool,
    DelugeFailure,
>)
    ensures
        match error {
            Some(reported) => checked == Err::<bool, DelugeFailure>(
                DelugeFailure::Api { message: reported.message, code: reported.code },
            ),
            None => match result {
                ResultKind::False => checked == Err::<bool, DelugeFailure>(DelugeFailure::Falsy),
                ResultKind::Value => checked == Ok::<bool, DelugeFailure>(true),
                ResultKind::Absent => checked == Ok::<bool, DelugeFailure>(false),
            },
        },
{
    match error {
        Some(reported) => Err(DelugeFailure::Api { message: reported.message, code: reported.code }),
        None => match result {
            ResultKind::False => Err(DelugeFailure::Falsy),
            ResultKind::Value => Ok(true),
            ResultKind::Absent => Ok(false),
        },
    }
}

} // verus!
