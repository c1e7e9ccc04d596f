//! What keys and clicks can do to the agent window's text fields: typing
//! edits only the field being typed in, appends only characters the window
//! types, and never takes a field past its length.
use vstd::prelude::*;
use vstd::utf8::{encode_scalar, encode_utf8};
use crate::identity::AgentConfigView;
use crate::keys::{spec_key_char, Key};
use crate::text::byte_len;
use crate::ui::{field_limit, field_text, spec_input, spec_key, spec_keys, spec_mouse, UiAppView};

verus! {

/// The characters typing can put in a field: digits, lower case letters,
/// `.`, `-` and space.
pub open spec fn typable(c: char) -> bool {
    ('0' <= c && c <= '9') || ('a' <= c && c <= 'z') || c == '.' || c == '-' || c == ' '
}

/// The four text fields of two window states are the same.
pub open spec fn same_fields(a: UiAppView, b: UiAppView) -> bool {
    &&& a.partner_id == b.partner_id
    &&& a.partner_pin == b.partner_pin
    &&& a.relay_addr == b.relay_addr
    &&& a.pin == b.pin
}

/// Every field holds at most its limit of UTF-8 bytes: 12 for the partner's
/// ID, 16 for the PINs, 40 for the relay address.
pub open spec fn fields_within_limits(v: UiAppView) -> bool {
    &&& encode_utf8(v.partner_id).len() <= 12
    &&& encode_utf8(v.partner_pin).len() <= 16
    &&& encode_utf8(v.relay_addr).len() <= 40
    &&& encode_utf8(v.pin).len() <= 16
}

proof fn lemma_encode_concat(a: Seq<char>, b: Seq<char>)
    ensures
        encode_utf8(a + b) == encode_utf8(a) + encode_utf8(b),
    decreases a.len(),
{
    if a.len() == 0 {
        assert(a + b =~= b);
        assert(encode_utf8(a) + encode_utf8(b) =~= encode_utf8(b));
    } else {
        lemma_encode_concat(a.drop_first(), b);
        assert((a + b).drop_first() =~= a.drop_first() + b);
        assert((a + b)[0] == a[0]);
        assert(encode_utf8(a + b) =~= encode_scalar(a[0] as u32) + (encode_utf8(a.drop_first())
            + encode_utf8(b)));
    }
}

proof fn lemma_encode_single(c: char)
    ensures
        encode_utf8(seq![c]) == encode_scalar(c as u32),
{
    assert(seq![c].drop_first() =~= Seq::<char>::empty());
    assert(encode_utf8(seq![c]) =~= encode_scalar(c as u32) + encode_utf8(Seq::<char>::empty()));
}

/// Appending a character the window types adds one byte.
proof fn lemma_push_typable(s: Seq<char>, c: char)
    requires
        typable(c),
    ensures
        encode_utf8(s.push(c)).len() == encode_utf8(s).len() + 1,
{
    lemma_encode_concat(s, seq![c]);
    assert(s.push(c) =~= s + seq![c]);
    lemma_encode_single(c);
    assert((c as u32) <= 0x7F);
}

/// Removing the last character never adds bytes.
proof fn lemma_drop_last_shorter(s: Seq<char>)
    requires
        s.len() > 0,
    ensures
        encode_utf8(s.drop_last()).len() <= encode_utf8(s).len(),
{
    lemma_encode_concat(s.drop_last(), seq![s.last()]);
    assert(s.drop_last() + seq![s.last()] =~= s);
}

/// The characters keys type are ones the window types.
proof fn lemma_key_chars_typable(k: Key)
    ensures
        spec_key_char(k) matches Some(c) ==> typable(c),
{
}

/// A key press edits at most the field being typed in: Backspace removes
/// its last character, a character key appends a typable character while
/// the field is under its limit, and every other field stays as it was.
pub proof fn lemma_key_edits_only_active_field(v: UiAppView, cfg: AgentConfigView, key: Key, now_ms: u64)
    ensures
        ({
            let r = spec_key(v, cfg, key, now_ms).0;
            let f = v.active_field;
            &&& !(1 <= f <= 4) ==> same_fields(r, v)
            &&& 1 <= f <= 4 ==> forall|g: usize| 1 <= g <= 4 && g != f ==> #[trigger] field_text(r, g)
                == field_text(v, g)
            &&& 1 <= f <= 4 ==> (field_text(r, f) == field_text(v, f) || (field_text(v, f).len() > 0
                && field_text(r, f) == field_text(v, f).drop_last()) || (spec_key_char(key) matches Some(
                c,
            ) && typable(c) && byte_len(field_text(v, f)) < field_limit(f) && field_text(r, f)
                == field_text(v, f).push(c)))
        }),
{
    lemma_key_chars_typable(key);
}

/// A frame's mouse state never changes a field.
pub proof fn lemma_mouse_keeps_fields(
    v: UiAppView,
    cfg: AgentConfigView,
    mouse_down: bool,
    mx: int,
    my: int,
    now_ms: u64,
)
    ensures
        same_fields(spec_mouse(v, cfg, mouse_down, mx, my, now_ms).0, v),
{
}

proof fn lemma_key_keeps_limits(v: UiAppView, cfg: AgentConfigView, key: Key, now_ms: u64)
    requires
        fields_within_limits(v),
    ensures
        fields_within_limits(spec_key(v, cfg, key, now_ms).0),
{
    lemma_key_edits_only_active_field(v, cfg, key, now_ms);
    let r = spec_key(v, cfg, key, now_ms).0;
    let f = v.active_field;
    if 1 <= f <= 4 {
        let old_t = field_text(v, f);
        let new_t = field_text(r, f);
        assert(field_text(r, 1) == r.partner_id);
        assert(field_text(r, 2) == r.partner_pin);
        assert(field_text(r, 3) == r.relay_addr);
        assert(field_text(r, 4) == r.pin);
        if new_t == old_t {
        } else if old_t.len() > 0 && new_t == old_t.drop_last() {
            lemma_drop_last_shorter(old_t);
        } else {
            let c = spec_key_char(key)->0;
            lemma_push_typable(old_t, c);
            assert(encode_utf8(old_t).len() <= 40);
            assert(byte_len(old_t) == encode_utf8(old_t).len());
        }
    }
}

proof fn lemma_keys_keep_limits(v: UiAppView, cfg: AgentConfigView, keys: Seq<Key>, now_ms: u64)
    requires
        fields_within_limits(v),
    ensures
        fields_within_limits(spec_keys(v, cfg, keys, now_ms).0),
    decreases keys.len(),
{
    if keys.len() > 0 {
        lemma_keys_keep_limits(v, cfg, keys.drop_last(), now_ms);
        let r = spec_keys(v, cfg, keys.drop_last(), now_ms);
        lemma_key_keeps_limits(r.0, r.1, keys.last(), now_ms);
    }
}

/// Whatever keys and clicks a frame brings, fields within their limits stay
/// within them.
pub proof fn lemma_input_keeps_field_limits(
    v: UiAppView,
    cfg: AgentConfigView,
    keys: Seq<Key>,
    mouse_down: bool,
    mx: int,
    my: int,
    now_ms: u64,
)
    requires
        fields_within_limits(v),
    ensures
        fields_within_limits(spec_input(v, cfg, keys, mouse_down, mx, my, now_ms).0),
{
    lemma_keys_keep_limits(v, cfg, keys, now_ms);
    let k = spec_keys(v, cfg, keys, now_ms);
    lemma_mouse_keeps_fields(k.0, k.1, mouse_down, mx, my, now_ms);
}

} // verus!
