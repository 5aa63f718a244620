//! The command-channel protocol: one received chunk is one message, parsed as
//! a JSON object. A direct envelope carries `type` and `action` members; a
//! secondary transport nests the envelope as a JSON string under `data`. The
//! decision which actuation to perform is verified against the command table;
//! only the JSON decoding itself is delegated to `serde_json`.
use crate::text::str_eq;
use vstd::prelude::*;

verus! {

/// The members of one JSON object that the protocol reads: its string-valued
/// members and its integer-valued members, each in the object's member order.
pub struct ObjectFields {
    pub strings: Vec<(String, String)>,
    pub ints: Vec<(String, i64)>,
}

/// The mathematical value of [`ObjectFields`].
pub type FieldsView = (Seq<(Seq<char>, Seq<char>)>, Seq<(Seq<char>, i64)>);

impl View for ObjectFields {
    type V = FieldsView;

    open spec fn view(&self) -> FieldsView {
        (self.strings.deep_view(), self.ints.deep_view())
    }
}

/// What decoding the characters `s` as a JSON object yields: `None` when `s`
/// is not a JSON object, else its string-valued and integer-valued members in
/// member order. Decoding depends on the characters alone.
pub uninterp spec fn object_fields(s: Seq<char>) -> Option<FieldsView>;

/// Relies on `serde_json::from_str` to decode one JSON object, and on
/// `serde_json::Value::{as_object, as_str, as_i64}` to take its members
/// apart. The member order is the map's own (sorted by key), so the result is
/// a function of the input characters alone.
#[verifier::external_body]
fn parse_object(msg: &str) -> (r: Option<ObjectFields>)
    ensures
        match r {
            Some(f) => object_fields(msg@) == Some(f@),
            None => object_fields(msg@) is None,
        },
{
    let v: serde_json::Value = serde_json::from_str(msg).ok()?;
    let obj = v.as_object()?;
    let mut strings = Vec::new();
    let mut ints = Vec::new();
    for (k, val) in obj {
        if let Some(s) = val.as_str() {
            strings.push((k.clone(), s.to_string()));
        } else if let Some(i) = val.as_i64() {
            ints.push((k.clone(), i));
        }
    }
    Some(ObjectFields { strings, ints })
}

/// The value under the first entry of `m` whose key is `k`, if any.
pub open spec fn spec_lookup<T>(m: Seq<(Seq<char>, T)>, k: Seq<char>) -> Option<T>
    decreases m.len(),
{
    if m.len() == 0 {
        None
    } else if m[0].0 == k {
        Some(m[0].1)
    } else {
        spec_lookup(m.drop_first(), k)
    }
}

/// The string member of `f` named `k`, if any.
pub open spec fn field_str(f: FieldsView, k: Seq<char>) -> Option<Seq<char>> {
    spec_lookup(f.0, k)
}

/// The integer member of `f` named `k`, if any.
pub open spec fn field_int(f: FieldsView, k: Seq<char>) -> Option<i64> {
    spec_lookup(f.1, k)
}

/// Looks `key` up among the string-valued members.
fn lookup_string(entries: &Vec<(String, String)>, key: &str) -> (r: Option<String>)
    ensures
        match r {
            Some(v) => spec_lookup(entries.deep_view(), key@) == Some(v@),
            None => spec_lookup(entries.deep_view(), key@) is None,
        },
{
    let mut i: usize = 0;
    proof {
        assert(entries.deep_view().skip(0) =~= entries.deep_view());
    }
    while i < entries.len()
        invariant
            i <= entries@.len(),
            spec_lookup(entries.deep_view(), key@) == spec_lookup(
                entries.deep_view().skip(i as int),
                key@,
            ),
        decreases entries@.len() - i,
    {
        proof {
            let m = entries.deep_view().skip(i as int);
            assert(m[0] == entries.deep_view()[i as int]);
            assert(m.drop_first() =~= entries.deep_view().skip(i + 1));
        }
        if str_eq(entries[i].0.as_str(), key) {
            return Some(entries[i].1.clone());
        }
        i = i + 1;
    }
    proof {
        assert(entries.deep_view().skip(entries@.len() as int).len() == 0);
    }
    None
}

/// Looks `key` up among the integer-valued members.
fn lookup_int(entries: &Vec<(String, i64)>, key: &str) -> (r: Option<i64>)
    ensures
        match r {
            Some(v) => spec_lookup(entries.deep_view(), key@) == Some(v),
            None => spec_lookup(entries.deep_view(), key@) is None,
        },
{
    let mut i: usize = 0;
    proof {
        assert(entries.deep_view().skip(0) =~= entries.deep_view());
    }
    while i < entries.len()
        invariant
            i <= entries@.len(),
            spec_lookup(entries.deep_view(), key@) == spec_lookup(
                entries.deep_view().skip(i as int),
                key@,
            ),
        decreases entries@.len() - i,
    {
        proof {
            let m = entries.deep_view().skip(i as int);
            assert(m[0] == entries.deep_view()[i as int]);
            assert(m.drop_first() =~= entries.deep_view().skip(i + 1));
        }
        if str_eq(entries[i].0.as_str(), key) {
            return Some(entries[i].1);
        }
        i = i + 1;
    }
    proof {
        assert(entries.deep_view().skip(entries@.len() as int).len() == 0);
    }
    None
}

/// One call against the input-actuation backend.
#[derive(Debug, Clone, Copy, PartialEq, Eq, Structural)]
pub enum ActuationCall {
    /// Previous-slide equivalent key press.
    PreviousSlide,
    /// Next-slide equivalent key press.
    NextSlide,
    /// Primary button click.
    PrimaryClick,
    /// Secondary button click.
    SecondaryClick,
    /// Relative pointer move.
    MoveCursor { dx: i64, dy: i64 },
    /// Vertical scroll by the signed amount.
    ScrollVertical { amount: i64 },
}

/// The signed scroll amount: `delta` upward, `-delta` otherwise, saturated at
/// the largest representable amount for the one unrepresentable negation.
pub open spec fn spec_scroll_amount(direction: Seq<char>, delta: i64) -> i64 {
    if direction == "up"@ {
        delta
    } else if delta == i64::MIN {
        i64::MAX
    } else {
        (0 - delta) as i64
    }
}

/// Whether `f` carries a command envelope: both a `type` and an `action`
/// string member.
pub open spec fn has_envelope(f: FieldsView) -> bool {
    field_str(f, "type"@) is Some && field_str(f, "action"@) is Some
}

/// The actuation that the envelope members of `f` name, by the command table:
/// `presentation`/`left`, `presentation`/`right`, `cursor`/`left_click`,
/// `cursor`/`right_click`, `cursor`/`move` with `deltaX` and `deltaY`, and
/// `cursor`/`scroll` with `direction` and `delta`. Anything else is `None`.
pub open spec fn decide_envelope(f: FieldsView) -> Option<ActuationCall> {
    match (field_str(f, "type"@), field_str(f, "action"@)) {
        (Some(ty), Some(action)) => {
            if ty == "presentation"@ {
                if action == "left"@ {
                    Some(ActuationCall::PreviousSlide)
                } else if action == "right"@ {
                    Some(ActuationCall::NextSlide)
                } else {
                    None
                }
            } else if ty == "cursor"@ {
                if action == "left_click"@ {
                    Some(ActuationCall::PrimaryClick)
                } else if action == "right_click"@ {
                    Some(ActuationCall::SecondaryClick)
                } else if action == "move"@ {
                    match (field_int(f, "deltaX"@), field_int(f, "deltaY"@)) {
                        (Some(dx), Some(dy)) => Some(ActuationCall::MoveCursor { dx, dy }),
                        _ => None,
                    }
                } else if action == "scroll"@ {
                    match (field_str(f, "direction"@), field_int(f, "delta"@)) {
                        (Some(dir), Some(d)) => Some(
                            ActuationCall::ScrollVertical { amount: spec_scroll_amount(dir, d) },
                        ),
                        _ => None,
                    }
                } else {
                    None
                }
            } else {
                None
            }
        },
        _ => None,
    }
}

/// The actuation that one received message names: the message is decoded as a
/// JSON object; a direct envelope decides immediately; otherwise a string
/// member `data` is decoded again and its envelope decides; any other shape
/// decides nothing.
pub open spec fn message_decision(s: Seq<char>) -> Option<ActuationCall> {
    match object_fields(s) {
        None => None,
        Some(f) => {
            if has_envelope(f) {
                decide_envelope(f)
            } else {
                match field_str(f, "data"@) {
                    None => None,
                    Some(d) => match object_fields(d) {
                        None => None,
                        Some(g) => {
                            if has_envelope(g) {
                                decide_envelope(g)
                            } else {
                                None
                            }
                        },
                    },
                }
            }
        },
    }
}

/// Decides the actuation named by the envelope members of `fields`.
fn decide_fields(fields: &ObjectFields) -> (r: Option<ActuationCall>)
    ensures
        r == (if has_envelope(fields@) {
            decide_envelope(fields@)
        } else {
            None::<ActuationCall>
        }),
{
    let ty = match lookup_string(&fields.strings, "type") {
        Some(t) => t,
        None => return None,
    };
    let action = match lookup_string(&fields.strings, "action") {
        Some(a) => a,
        None => return None,
    };
    if str_eq(ty.as_str(), "presentation") {
        if str_eq(action.as_str(), "left") {
            Some(ActuationCall::PreviousSlide)
        } else if str_eq(action.as_str(), "right") {
            Some(ActuationCall::NextSlide)
        } else {
            None
        }
    } else if str_eq(ty.as_str(), "cursor") {
        if str_eq(action.as_str(), "left_click") {
            Some(ActuationCall::PrimaryClick)
        } else if str_eq(action.as_str(), "right_click") {
            Some(ActuationCall::SecondaryClick)
        } else if str_eq(action.as_str(), "move") {
            match (lookup_int(&fields.ints, "deltaX"), lookup_int(&fields.ints, "deltaY")) {
                (Some(dx), Some(dy)) => Some(ActuationCall::MoveCursor { dx, dy }),
                _ => None,
            }
        } else if str_eq(action.as_str(), "scroll") {
            match (lookup_string(&fields.strings, "direction"), lookup_int(&fields.ints, "delta")) {
                (Some(dir), Some(d)) => {
                    let amount: i64 = if str_eq(dir.as_str(), "up") {
                        d
                    } else if d == i64::MIN {
                        i64::MAX
                    } else {
                        -d
                    };
                    Some(ActuationCall::ScrollVertical { amount })
                },
                _ => None,
            }
        } else {
            None
        }
    } else {
        None
    }
}

/// Handles one received message: decodes it and decides the actuation call, if
/// any. A message of any other shape decides nothing and is simply discarded;
/// it never ends the connection.
pub fn handle_message(msg: &str) -> (r: Option<ActuationCall>)
    ensures
        r == message_decision(msg@),
{
    let fields = match parse_object(msg) {
        Some(f) => f,
        None => return None,
    };
    let has_type = lookup_string(&fields.strings, "type").is_some();
    let has_action = lookup_string(&fields.strings, "action").is_some();
    if has_type && has_action {
        decide_fields(&fields)
    } else {
        let data = match lookup_string(&fields.strings, "data") {
            Some(d) => d,
            None => return None,
        };
        let inner = match parse_object(data.as_str()) {
            Some(g) => g,
            None => return None,
        };
        let inner_type = lookup_string(&inner.strings, "type").is_some();
        let inner_action = lookup_string(&inner.strings, "action").is_some();
        if inner_type && inner_action {
            decide_fields(&inner)
        } else {
            None
        }
    }
}

/// A command envelope decides the same actuation whether it arrives directly
/// or nested as the `data` string of an otherwise envelope-free object.
pub proof fn lemma_nested_envelope_matches_direct(inner: Seq<char>, wrapper: Seq<char>)
    requires
        object_fields(inner) matches Some(f) && has_envelope(f),
        object_fields(wrapper) matches Some(g) && !has_envelope(g) && field_str(g, "data"@)
            == Some(inner),
    ensures
        message_decision(wrapper) == message_decision(inner),
{
}

} // verus!
