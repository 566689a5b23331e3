//! Query parameters.

use vstd::prelude::*;

use crate::decimal::{read_decimal, reading};
use crate::text::{optional_text, pairs, same_text};

verus! {

/// The value of parameter `name`: that of its last entry.
pub open spec fn parameter(params: Seq<(Seq<char>, Seq<char>)>, name: Seq<char>) -> Option<Seq<char>>
    decreases params.len(),
{
    if params.len() == 0 {
        None
    } else if params.last().0 == name {
        Some(params.last().1)
    } else {
        parameter(params.drop_last(), name)
    }
}

/// The folder that a request is about: `INBOX` where it names none.
pub open spec fn folder_of(params: Seq<(Seq<char>, Seq<char>)>) -> Seq<char> {
    match parameter(params, "folder"@) {
        Some(folder) => folder,
        None => "INBOX"@,
    }
}

/// How many messages a request asks for at most: 20 where it gives no number of 32 bits.
pub open spec fn limit_of(params: Seq<(Seq<char>, Seq<char>)>) -> nat {
    match parameter(params, "limit"@) {
        Some(text) => match reading(text, u32::MAX as nat) {
            Ok(limit) => limit,
            Err(_) => 20,
        },
        None => 20,
    }
}

/// Looks up a parameter.
pub fn find(params: &Vec<(String, String)>, name: &str) -> (value: Option<String>)
    ensures
        optional_text(value) == parameter(pairs(params@), name@),
{
    let ghost all = pairs(params@);
    let mut n: usize = params.len();
    assert(all.take(n as int) == all);
    while n > 0
        invariant
            n <= params.len(),
            all == pairs(params@),
            parameter(all.take(n as int), name@) == parameter(all, name@),
        decreases n,
    {
        assert(all.take(n as int).last() == all[n - 1]);
        if same_text(params[n - 1].0.as_str(), name) {
            return Some(params[n - 1].1.clone());
        }
        assert(all.take(n as int).drop_last() == all.take(n - 1));
        n -= 1;
    }
    None
}

/// The folder that a request is about.
pub fn folder(params: &Vec<(String, String)>) -> (folder: String)
    ensures
        folder@ == folder_of(pairs(params@)),
{
    match find(params, "folder") {
        Some(folder) => folder,
        None => "INBOX".to_string(),
    }
}

/// How many messages a request asks for at most.
pub fn limit(params: &Vec<(String, String)>) -> (limit: u32)
    ensures
        limit as nat == limit_of(pairs(params@)),
{
    match find(params, "limit") {
        Some(text) => match read_decimal(text.as_str(), u32::MAX as u64) {
            Ok(limit) => limit as u32,
            Err(_) => 20,
        },
        None => 20,
    }
}

/// A parameter has the value of the last entry of its name, whatever that value is; it has none
/// exactly where no entry has its name.
pub proof fn the_last_entry_of_a_name_counts(
    params: Seq<(Seq<char>, Seq<char>)>,
    name: Seq<char>,
    i: int,
)
    ensures
        0 <= i < params.len() && params[i].0 == name && (forall|j: int|
            i < j < params.len() ==> (#[trigger] params[j]).0 != name) ==> parameter(params, name)
            == Some(params[i].1),
        (forall|j: int| 0 <= j < params.len() ==> (#[trigger] params[j]).0 != name) <==> parameter(
            params,
            name,
        ) is None,
    decreases params.len(),
{
    if params.len() > 0 {
        let init = params.drop_last();
        the_last_entry_of_a_name_counts(init, name, i);
        assert(params.last() == params[params.len() - 1]);
        if params.last().0 != name {
            if 0 <= i < params.len() && params[i].0 == name && (forall|j: int|
                i < j < params.len() ==> (#[trigger] params[j]).0 != name) {
                assert(init[i] == params[i]);
                assert forall|j: int| i < j < init.len() implies (#[trigger] init[j]).0 != name by {
                    assert(params[j].0 != name);
                }
            }
            if forall|j: int| 0 <= j < params.len() ==> (#[trigger] params[j]).0 != name {
                assert forall|j: int| 0 <= j < init.len() implies (#[trigger] init[j]).0 != name by {
                    assert(params[j].0 != name);
                }
            }
            if forall|j: int| 0 <= j < init.len() ==> (#[trigger] init[j]).0 != name {
                assert forall|j: int| 0 <= j < params.len() implies (#[trigger] params[j]).0
                    != name by {
                    if j < init.len() {
                        assert(init[j].0 != name);
                    }
                }
            }
        }
    }
}

/// A request is about the folder that the last entry named `folder` gives, whatever its value is,
/// and about `INBOX` where no entry has that name.
pub proof fn requests_are_about_the_folder_they_name(
    params: Seq<(Seq<char>, Seq<char>)>,
    i: int,
)
    ensures
        0 <= i < params.len() && params[i].0 == "folder"@ && (forall|j: int|
            i < j < params.len() ==> (#[trigger] params[j]).0 != "folder"@) ==> folder_of(params)
            == params[i].1,
        (forall|j: int| 0 <= j < params.len() ==> (#[trigger] params[j]).0 != "folder"@)
            ==> folder_of(params) == "INBOX"@,
{
    the_last_entry_of_a_name_counts(params, "folder"@, i);
}

/// A request asks for as many messages as the last entry named `limit` says, where that is a
/// numeral of 32 bits; for 20 where it is none, or no entry has that name.
pub proof fn requests_ask_for_as_many_as_they_say(
    params: Seq<(Seq<char>, Seq<char>)>,
    i: int,
)
    ensures
        0 <= i < params.len() && params[i].0 == "limit"@ && (forall|j: int|
            i < j < params.len() ==> (#[trigger] params[j]).0 != "limit"@) ==> {
            let text = params[i].1;
            &&& reading(text, 0xffff_ffff) is Ok ==> limit_of(params) == reading(
                text,
                0xffff_ffff,
            )->Ok_0
            &&& reading(text, 0xffff_ffff) is Err ==> limit_of(params) == 20
        },
        (forall|j: int| 0 <= j < params.len() ==> (#[trigger] params[j]).0 != "limit"@)
            ==> limit_of(params) == 20,
{
    the_last_entry_of_a_name_counts(params, "limit"@, i);
}

} // verus!
