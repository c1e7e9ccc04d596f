//! LAN discovery: a viewer broadcasts the System ID it looks for, and the
//! agent with that ID answers.
use vstd::prelude::*;
use crate::setup::{has_prefix, strip_prefixes, strip_prefixes_exec};
use crate::text::{chars_of, push_str, string_of, text_eq, trim_by, trim_chars, Strip};

verus! {

/// The UDP port agents listen on for discovery broadcasts.
pub const DISCOVERY_PORT: u16 = 49183;

/// The port a discovered agent is reached on.
pub const DIRECT_PORT: u16 = 49184;

/// `DS_DISCOVER:<id>`, the broadcast looking for `target_id`.
pub fn discover_request(target_id: &str) -> (m: String)
    ensures
        m@ == "DS_DISCOVER:"@ + target_id@,
{
    let mut out: Vec<char> = Vec::new();
    push_str(&mut out, "DS_DISCOVER:");
    push_str(&mut out, target_id);
    string_of(out.as_slice())
}

/// The identifier a message carries after `tag`, when it starts with `tag`:
/// every leading repetition of the tag removed, then trimmed.
pub open spec fn tagged_id(msg: Seq<char>, tag: Seq<char>) -> Option<Seq<char>> {
    if has_prefix(msg, tag) {
        Some(trim_by(strip_prefixes(msg, tag), Strip::WhiteSpace))
    } else {
        None
    }
}

fn tagged_id_exec(msg: &str, tag: &str) -> (r: Option<String>)
    ensures
        r matches Some(v) ==> tagged_id(msg@, tag@) == Some(v@),
        r is None ==> tagged_id(msg@, tag@) is None,
{
    let m = chars_of(msg);
    let t = chars_of(tag);
    let p = crate::text::starts_with(m.as_slice(), t.as_slice());
    proof {
        assert(p == has_prefix(m@, t@));
    }
    if !p {
        return None;
    }
    let rest = strip_prefixes_exec(m.as_slice(), t.as_slice());
    let id = trim_chars(rest.as_slice(), Strip::WhiteSpace);
    Some(string_of(id.as_slice()))
}

/// An agent's answer to a broadcast: `DS_FOUND:<id>` when the broadcast
/// looks for this agent's System ID, nothing otherwise.
pub fn discovery_reply(msg: &str, system_id: &str) -> (r: Option<String>)
    ensures
        r is Some <==> tagged_id(msg@, "DS_DISCOVER:"@) == Some(system_id@),
        r matches Some(v) ==> v@ == "DS_FOUND:"@ + system_id@,
{
    match tagged_id_exec(msg, "DS_DISCOVER:") {
        Some(id) => {
            if text_eq(id.as_str(), system_id) {
                let mut out: Vec<char> = Vec::new();
                push_str(&mut out, "DS_FOUND:");
                push_str(&mut out, system_id);
                Some(string_of(out.as_slice()))
            } else {
                None
            }
        },
        None => None,
    }
}

/// Whether an answer comes from the agent a viewer looks for.
pub fn discovery_matches(response: &str, target_id: &str) -> (b: bool)
    ensures
        b == (tagged_id(response@, "DS_FOUND:"@) == Some(target_id@)),
{
    match tagged_id_exec(response, "DS_FOUND:") {
        Some(id) => text_eq(id.as_str(), target_id),
        None => false,
    }
}

/// An agent answers the broadcast that looks for it, and the viewer that
/// sent it recognises the answer. (An identifier with white space at either
/// end, or one that itself begins with the tag, is read back differently.)
pub proof fn lemma_discovery_answers(id: Seq<char>)
    requires
        trim_by(id, Strip::WhiteSpace) == id,
        !has_prefix(id, "DS_DISCOVER:"@),
        !has_prefix(id, "DS_FOUND:"@),
    ensures
        tagged_id("DS_DISCOVER:"@ + id, "DS_DISCOVER:"@) == Some(id),
        tagged_id("DS_FOUND:"@ + id, "DS_FOUND:"@) == Some(id),
{
    reveal_strlit("DS_DISCOVER:");
    reveal_strlit("DS_FOUND:");
    lemma_strip_once("DS_DISCOVER:"@, id);
    lemma_strip_once("DS_FOUND:"@, id);
}

proof fn lemma_strip_once(tag: Seq<char>, id: Seq<char>)
    requires
        tag.len() > 0,
        !has_prefix(id, tag),
    ensures
        has_prefix(tag + id, tag),
        strip_prefixes(tag + id, tag) == id,
{
    let m = tag + id;
    assert(m.take(tag.len() as int) =~= tag);
    assert(m.skip(tag.len() as int) =~= id);
    reveal_with_fuel(strip_prefixes, 2);
}

} // verus!
