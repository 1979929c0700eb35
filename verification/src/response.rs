//! The body of an answer to a device: named fields, among them always the
//! version of the relay that answers.

use vstd::prelude::*;
use crate::status::RegistrationStatus;

verus! {

/// The fields of an answer, in the order they were set. A field set twice has
/// the value it was given last.
#[derive(Debug, PartialEq, Eq)]
pub struct Response {
    pub mollysocket: Vec<(String, String)>,
}

/// The fields that `entries` set, by name.
pub open spec fn fields(entries: Seq<(String, String)>) -> Map<Seq<char>, Seq<char>>
    decreases entries.len(),
{
    if entries.len() == 0 {
        Map::empty()
    } else {
        fields(entries.drop_last()).insert(entries.last().0@, entries.last().1@)
    }
}

impl View for Response {
    type V = Map<Seq<char>, Seq<char>>;

    open spec fn view(&self) -> Map<Seq<char>, Seq<char>> {
        fields(self.mollysocket@)
    }
}

/// The answer that carries the fields of `map` and, whatever `map` says of it,
/// `version` as its `version`: the entries of `map` as they stand, and the
/// version set after them.
pub fn gen_rep(map: Vec<(String, String)>, version: &str) -> (rep: Response)
    ensures
        rep@ == fields(map@).insert("version"@, version@),
        rep.mollysocket@.len() == map@.len() + 1,
        rep.mollysocket@.drop_last() == map@,
        rep.mollysocket@.last().0@ == "version"@,
        rep.mollysocket@.last().1@ == version@,
{
    let mut entries = map;
    entries.push(("version".to_owned(), version.to_owned()));
    assert(entries@.drop_last() =~= map@);
    Response { mollysocket: entries }
}

/// The answer to a device that asks what it is talking to: the version alone.
pub fn discover(version: &str) -> (rep: Response)
    ensures
        rep@ == Map::<Seq<char>, Seq<char>>::empty().insert("version"@, version@),
{
    gen_rep(Vec::new(), version)
}

/// The answer to a registration that ended in `status`: the word for its
/// outcome as `status`, beside the version.
pub fn status_rep(status: RegistrationStatus, version: &str) -> (rep: Response)
    ensures
        rep@ == Map::<Seq<char>, Seq<char>>::empty().insert(
            "status"@,
            status.outcome().text(),
        ).insert("version"@, version@),
{
    let mut map = Vec::new();
    map.push(("status".to_owned(), String::from(status)));
    proof {
        reveal_with_fuel(fields, 2);
    }
    gen_rep(map, version)
}

} // verus!
