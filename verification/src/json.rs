//! JSON framing for the event payloads the service publishes. The
//! encoders build the exact byte-for-byte wire text, so the rim only
//! hands the string to the bus client.

use vstd::prelude::*;

use crate::model::{BoxLockedEvent, InvitationEvent};
use crate::text::push_char;

verus! {

/// The lower-case hex digit for a value below sixteen.
pub open spec fn spec_hex_digit(v: int) -> char {
    if v == 0 {
        '0'
    } else if v == 1 {
        '1'
    } else if v == 2 {
        '2'
    } else if v == 3 {
        '3'
    } else if v == 4 {
        '4'
    } else if v == 5 {
        '5'
    } else if v == 6 {
        '6'
    } else if v == 7 {
        '7'
    } else if v == 8 {
        '8'
    } else if v == 9 {
        '9'
    } else if v == 10 {
        'a'
    } else if v == 11 {
        'b'
    } else if v == 12 {
        'c'
    } else if v == 13 {
        'd'
    } else if v == 14 {
        'e'
    } else {
        'f'
    }
}

/// How one character reads inside a JSON string literal: quote and
/// backslash are escaped, the common control characters get their short
/// escapes, any other control character the `\u` form, and everything
/// else stands as itself.
pub open spec fn spec_escape_char(c: char) -> Seq<char> {
    if c == '"' {
        seq!['\\', '"']
    } else if c == '\\' {
        seq!['\\', '\\']
    } else if c == '\n' {
        seq!['\\', 'n']
    } else if c == '\r' {
        seq!['\\', 'r']
    } else if c == '\t' {
        seq!['\\', 't']
    } else if (c as int) < 32 {
        seq!['\\', 'u', '0', '0', spec_hex_digit((c as int) / 16), spec_hex_digit((c as int) % 16)]
    } else {
        seq![c]
    }
}

/// How a whole string reads inside a JSON string literal.
pub open spec fn spec_escaped(s: Seq<char>) -> Seq<char>
    decreases s.len(),
{
    if s.len() == 0 {
        Seq::empty()
    } else {
        spec_escaped(s.drop_last()) + spec_escape_char(s.last())
    }
}

/// A JSON string literal: the escaped text between double quotes.
pub open spec fn spec_json_string(s: Seq<char>) -> Seq<char> {
    seq!['"'] + spec_escaped(s) + seq!['"']
}

/// A JSON string literal or `null`.
pub open spec fn spec_json_opt_string(s: Option<String>) -> Seq<char> {
    match s {
        Some(v) => spec_json_string(v@),
        None => "null"@,
    }
}

/// A JSON array of string literals.
pub open spec fn spec_json_string_array(items: Seq<Seq<char>>) -> Seq<char>
    decreases items.len(),
{
    if items.len() == 0 {
        "[]"@
    } else if items.len() == 1 {
        seq!['['] + spec_json_string(items[0]) + seq![']']
    } else {
        spec_json_string_array(items.drop_last()).drop_last() + seq![','] + spec_json_string(
            items.last(),
        ) + seq![']']
    }
}

/// Renders one character into the buffer as it reads inside a JSON
/// string literal.
fn push_escaped_char(out: &mut String, c: char)
    ensures
        final(out)@ == old(out)@ + spec_escape_char(c),
{
    if c == '"' {
        push_char(out, '\\');
        push_char(out, '"');
    } else if c == '\\' {
        push_char(out, '\\');
        push_char(out, '\\');
    } else if c == '\n' {
        push_char(out, '\\');
        push_char(out, 'n');
    } else if c == '\r' {
        push_char(out, '\\');
        push_char(out, 'r');
    } else if c == '\t' {
        push_char(out, '\\');
        push_char(out, 't');
    } else if (c as u32) < 32 {
        let v: u32 = c as u32;
        push_char(out, '\\');
        push_char(out, 'u');
        push_char(out, '0');
        push_char(out, '0');
        push_char(out, hex_digit((v / 16) as u8));
        push_char(out, hex_digit((v % 16) as u8));
    } else {
        push_char(out, c);
    }
}

/// The lower-case hex digit for a value below sixteen.
fn hex_digit(v: u8) -> (c: char)
    requires
        v < 16,
    ensures
        c == spec_hex_digit(v as int),
{
    if v == 0 {
        '0'
    } else if v == 1 {
        '1'
    } else if v == 2 {
        '2'
    } else if v == 3 {
        '3'
    } else if v == 4 {
        '4'
    } else if v == 5 {
        '5'
    } else if v == 6 {
        '6'
    } else if v == 7 {
        '7'
    } else if v == 8 {
        '8'
    } else if v == 9 {
        '9'
    } else if v == 10 {
        'a'
    } else if v == 11 {
        'b'
    } else if v == 12 {
        'c'
    } else if v == 13 {
        'd'
    } else if v == 14 {
        'e'
    } else {
        'f'
    }
}

/// Appends a JSON string literal for `s` to the buffer.
fn push_json_string(out: &mut String, s: &str)
    ensures
        final(out)@ == old(out)@ + spec_json_string(s@),
{
    push_char(out, '"');
    let n = s.unicode_len();
    let mut i: usize = 0;
    while i < n
        invariant
            i <= n,
            n == s@.len(),
            out@ == old(out)@ + seq!['"'] + spec_escaped(s@.take(i as int)),
        decreases n - i,
    {
        proof {
            assert(s@.take(i + 1).drop_last() =~= s@.take(i as int));
            assert(s@.take(i + 1).last() == s@[i as int]);
        }
        let c = s.get_char(i);
        push_escaped_char(out, c);
        proof {
            assert(out@ =~= old(out)@ + seq!['"'] + spec_escaped(s@.take(i + 1)));
        }
        i = i + 1;
    }
    push_char(out, '"');
    proof {
        assert(s@.take(s@.len() as int) =~= s@);
        assert(out@ =~= old(out)@ + spec_json_string(s@));
    }
}

/// Appends a JSON string literal for `s`, or `null`, to the buffer.
fn push_json_opt_string(out: &mut String, s: &Option<String>)
    ensures
        final(out)@ == old(out)@ + spec_json_opt_string(*s),
{
    match s {
        Some(v) => push_json_string(out, v.as_str()),
        None => {
            out.append("null");
        },
    }
}

/// An encoded JSON array has at least the two brackets and ends with
/// the closing one.
proof fn lemma_json_array_shape(items: Seq<Seq<char>>)
    ensures
        spec_json_string_array(items).len() >= 2,
        spec_json_string_array(items).last() == ']',
    decreases items.len(),
{
    reveal_strlit("[]");
    if items.len() == 0 {
        assert(spec_json_string_array(items).len() == 2);
        assert(spec_json_string_array(items)[1] == ']');
    } else if items.len() == 1 {
        let a = seq!['['] + spec_json_string(items[0]);
        assert(spec_json_string_array(items) =~= a + seq![']']);
        assert((a + seq![']']).last() == ']');
    } else {
        lemma_json_array_shape(items.drop_last());
        let b = spec_json_string_array(items.drop_last()).drop_last() + seq![',']
            + spec_json_string(items.last());
        assert(spec_json_string_array(items) =~= b + seq![']']);
        assert((b + seq![']']).last() == ']');
    }
}

/// Appends a JSON array holding one string literal per item.
fn push_json_string_array(out: &mut String, items: &Vec<String>)
    ensures
        final(out)@ == old(out)@ + spec_json_string_array(items.deep_view()),
{
    push_char(out, '[');
    let mut i: usize = 0;
    while i < items.len()
        invariant
            i <= items.len(),
            i == 0 ==> out@ == old(out)@ + seq!['['],
            i > 0 ==> out@ + seq![']'] == old(out)@ + spec_json_string_array(
                items.deep_view().take(i as int),
            ),
        decreases items.len() - i,
    {
        proof {
            assert(items.deep_view().take(i + 1).drop_last() =~= items.deep_view().take(i as int));
            assert(items.deep_view().take(i + 1).last() == items.deep_view()[i as int]);
            assert(items.deep_view()[i as int] == items@[i as int]@);
            if i > 0 {
                lemma_json_array_shape(items.deep_view().take(i as int));
                let a = spec_json_string_array(items.deep_view().take(i as int));
                assert(out@ + seq![']'] == old(out)@ + a);
                assert(out@.len() + 1 == old(out)@.len() + a.len());
                assert forall|k: int| 0 <= k < out@.len() implies out@[k] == (old(out)@
                    + a.drop_last())[k] by {
                    assert(out@[k] == (out@ + seq![']'])[k]);
                    assert((out@ + seq![']'])[k] == (old(out)@ + a)[k]);
                }
                assert(out@ =~= old(out)@ + a.drop_last());
            }
        }
        if i > 0 {
            push_char(out, ',');
        }
        push_json_string(out, items[i].as_str());
        proof {
            if i == 0 {
                assert(out@ + seq![']'] =~= old(out)@ + spec_json_string_array(
                    items.deep_view().take(1),
                ));
            } else {
                assert(out@ + seq![']'] =~= old(out)@ + spec_json_string_array(
                    items.deep_view().take(i + 1),
                ));
            }
        }
        i = i + 1;
    }
    push_char(out, ']');
    proof {
        assert(items.deep_view().take(items.deep_view().len() as int) =~= items.deep_view());
        if items.len() == 0 {
            reveal_strlit("[]");
            assert(out@ =~= old(out)@ + spec_json_string_array(items.deep_view()));
        } else {
            assert(out@ =~= old(out)@ + spec_json_string_array(items.deep_view()));
        }
    }
}

/// The exact wire text of a lock event, with the timestamp already
/// rendered by the rim's clock code.
pub open spec fn spec_box_locked_json(ev: BoxLockedEvent, timestamp: Seq<char>) -> Seq<char> {
    "{\"event_type\":"@ + spec_json_string(ev.event_type@) + ",\"box_id\":"@ + spec_json_string(
        ev.box_id@,
    ) + ",\"box_name\":"@ + spec_json_string(ev.box_name@) + ",\"owner_name\":"@
        + spec_json_opt_string(ev.owner_name) + ",\"guardian_ids\":"@ + spec_json_string_array(
        ev.guardian_ids.deep_view(),
    ) + ",\"timestamp\":"@ + spec_json_string(timestamp) + "}"@
}

/// Renders the lock event for the bus, byte for byte as specified.
pub fn box_locked_event_json(ev: &BoxLockedEvent, timestamp: &str) -> (r: String)
    ensures
        r@ == spec_box_locked_json(*ev, timestamp@),
{
    let mut out = String::from_str("{\"event_type\":");
    push_json_string(&mut out, ev.event_type.as_str());
    out.append(",\"box_id\":");
    push_json_string(&mut out, ev.box_id.as_str());
    out.append(",\"box_name\":");
    push_json_string(&mut out, ev.box_name.as_str());
    out.append(",\"owner_name\":");
    push_json_opt_string(&mut out, &ev.owner_name);
    out.append(",\"guardian_ids\":");
    push_json_string_array(&mut out, &ev.guardian_ids);
    out.append(",\"timestamp\":");
    push_json_string(&mut out, timestamp);
    out.append("}");
    proof {
        assert(out@ =~= spec_box_locked_json(*ev, timestamp@));
    }
    out
}

/// The exact wire text of an invitation event, with the timestamp
/// already rendered by the rim's clock code.
pub open spec fn spec_invitation_event_json(ev: InvitationEvent, timestamp: Seq<char>) -> Seq<
    char,
> {
    "{\"event_type\":"@ + spec_json_string(ev.event_type@) + ",\"invitation_id\":"@
        + spec_json_string(ev.invitation_id@) + ",\"box_id\":"@ + spec_json_string(ev.box_id@)
        + ",\"user_id\":"@ + spec_json_opt_string(ev.user_id) + ",\"invite_code\":"@
        + spec_json_string(ev.invite_code@) + ",\"invited_name\":"@ + spec_json_opt_string(
        ev.invited_name,
    ) + ",\"is_lead_guardian\":"@ + (if ev.is_lead_guardian {
        "true"@
    } else {
        "false"@
    }) + ",\"timestamp\":"@ + spec_json_string(timestamp) + "}"@
}

/// Renders the invitation event for the bus, byte for byte as specified.
pub fn invitation_event_json(ev: &InvitationEvent, timestamp: &str) -> (r: String)
    ensures
        r@ == spec_invitation_event_json(*ev, timestamp@),
{
    let mut out = String::from_str("{\"event_type\":");
    push_json_string(&mut out, ev.event_type.as_str());
    out.append(",\"invitation_id\":");
    push_json_string(&mut out, ev.invitation_id.as_str());
    out.append(",\"box_id\":");
    push_json_string(&mut out, ev.box_id.as_str());
    out.append(",\"user_id\":");
    push_json_opt_string(&mut out, &ev.user_id);
    out.append(",\"invite_code\":");
    push_json_string(&mut out, ev.invite_code.as_str());
    out.append(",\"invited_name\":");
    push_json_opt_string(&mut out, &ev.invited_name);
    out.append(",\"is_lead_guardian\":");
    if ev.is_lead_guardian {
        out.append("true");
    } else {
        out.append("false");
    }
    out.append(",\"timestamp\":");
    push_json_string(&mut out, timestamp);
    out.append("}");
    proof {
        assert(out@ =~= spec_invitation_event_json(*ev, timestamp@));
    }
    out
}

} // verus!
