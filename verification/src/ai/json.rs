//! Reading JSON objects.
//!
//! Parsing is left to `serde_json`. What it finds is handed over as plain
//! values: the members of the object, each with its text if it is a
//! string, its flag if it is a boolean, and its compact written form.
//! Everything that is decided on those members is decided here.

use vstd::prelude::*;
use vstd::string::StringExecFns;
use crate::event::event::opt_text;

verus! {

/// One member of a JSON object.
#[derive(Debug, Clone, PartialEq, Eq)]
pub struct JsonMember {
    /// The text, if the member is a string.
    pub text: Option<String>,
    /// The flag, if the member is a boolean.
    pub flag: Option<bool>,
    /// The member written out as compact JSON.
    pub rendered: String,
}

/// Mathematical view of [`JsonMember`].
pub struct MemberView {
    pub text: Option<Seq<char>>,
    pub flag: Option<bool>,
    pub rendered: Seq<char>,
}

impl View for JsonMember {
    type V = MemberView;

    open spec fn view(&self) -> MemberView {
        MemberView { text: opt_text(self.text), flag: self.flag, rendered: self.rendered@ }
    }
}

/// The members of the JSON object that a text is, by key.
pub type Members = Seq<(Seq<char>, MemberView)>;

/// The members of the JSON object that `text` is, in the order the parser
/// hands them out; none if `text` is no JSON document or no object.
pub uninterp spec fn json_members_of(text: Seq<char>) -> Members;

/// The members as a mathematical value.
pub open spec fn members_view(members: Seq<(String, JsonMember)>) -> Members {
    Seq::new(members.len(), |i: int| (members[i].0@, members[i].1@))
}

/// Parses a JSON object into its members.
///
/// Calls `serde_json::from_str` for a `Value`. If the value is an object,
/// its entries are handed out with `Value::as_str`, `Value::as_bool` and
/// `to_string` of each member; anything else gives no members. The result
/// depends on the text alone and is only named.
#[verifier::external_body]
pub(crate) fn parse_members(text: &str) -> (members: Vec<(String, JsonMember)>)
    ensures
        members_view(members@) == json_members_of(text@),
{
    let mut members = Vec::new();
    if let Ok(serde_json::Value::Object(map)) = serde_json::from_str::<serde_json::Value>(text) {
        for (key, value) in map {
            let text = value.as_str().map(str::to_owned);
            let (flag, rendered) = (value.as_bool(), value.to_string());
            members.push((key, JsonMember { text, flag, rendered }));
        }
    }
    members
}

/// `at` is the first position in `members` with the key `key`.
pub open spec fn is_first_member(members: Members, key: Seq<char>, at: int) -> bool {
    &&& 0 <= at < members.len()
    &&& members[at].0 == key
    &&& forall|j: int| 0 <= j < at ==> members[j].0 != key
}

/// The first member with the key `key`, if there is one.
pub open spec fn member_of(members: Members, key: Seq<char>) -> Option<MemberView> {
    if exists|at: int| is_first_member(members, key, at) {
        Some(members[choose|at: int| is_first_member(members, key, at)].1)
    } else {
        None
    }
}

/// Only one position is the first with a key.
pub proof fn lemma_first_member(members: Members, key: Seq<char>, at: int)
    requires
        is_first_member(members, key, at),
    ensures
        member_of(members, key) == Some(members[at].1),
{
    let k = choose|k: int| is_first_member(members, key, k);
    if k < at {
    } else if at < k {
    }
}

/// Looks a member up by its key.
pub fn member<'a>(members: &'a Vec<(String, JsonMember)>, key: &str) -> (found: Option<
    &'a JsonMember,
>)
    ensures
        match found {
            Some(m) => member_of(members_view(members@), key@) == Some(m@),
            None => member_of(members_view(members@), key@) is None,
        },
{
    let wanted = String::from_str(key);
    let mut i: usize = 0;
    while i < members.len()
        invariant
            i <= members.len(),
            wanted@ == key@,
            forall|j: int| 0 <= j < i ==> members_view(members@)[j].0 != key@,
        decreases members.len() - i,
    {
        if members[i].0 == wanted {
            proof {
                assert(members_view(members@)[i as int].0 == key@);
                lemma_first_member(members_view(members@), key@, i as int);
            }
            return Some(&members[i].1);
        }
        i += 1;
    }
    None
}

/// The text of the string member `key`.
pub open spec fn text_of(members: Members, key: Seq<char>) -> Option<Seq<char>> {
    match member_of(members, key) {
        Some(m) => m.text,
        None => None,
    }
}

/// The flag of the boolean member `key`.
pub open spec fn flag_of(members: Members, key: Seq<char>) -> Option<bool> {
    match member_of(members, key) {
        Some(m) => m.flag,
        None => None,
    }
}

/// The written form of the member `key`.
pub open spec fn rendered_of(members: Members, key: Seq<char>) -> Option<Seq<char>> {
    match member_of(members, key) {
        Some(m) => Some(m.rendered),
        None => None,
    }
}

/// The text of a string member.
pub fn member_text(members: &Vec<(String, JsonMember)>, key: &str) -> (text: Option<String>)
    ensures
        opt_text(text) == text_of(members_view(members@), key@),
{
    match member(members, key) {
        Some(m) => crate::event::event::copy_opt_text(&m.text),
        None => None,
    }
}

/// The flag of a boolean member.
pub fn member_flag(members: &Vec<(String, JsonMember)>, key: &str) -> (flag: Option<bool>)
    ensures
        flag == flag_of(members_view(members@), key@),
{
    match member(members, key) {
        Some(m) => m.flag,
        None => None,
    }
}

/// The written form of a member.
pub fn member_rendered(members: &Vec<(String, JsonMember)>, key: &str) -> (text: Option<String>)
    ensures
        opt_text(text) == rendered_of(members_view(members@), key@),
{
    match member(members, key) {
        Some(m) => Some(m.rendered.clone()),
        None => None,
    }
}

} // verus!
