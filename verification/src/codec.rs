//! The token codec: a descriptor is flattened into one `key:value` token
//! (fields joined by `,`, key and value joined by `:`), and a token is parsed
//! back into a descriptor.

use crate::descriptor::{
    opt_or_empty, opt_view, query_args_text, ExecuteTemporalWorkflow,
    ExecuteTemporalWorkflowV, QueryTemporal, QueryTemporalV, SignalTemporal, SignalTemporalV,
    TemporalInteraction, TemporalInteractionV,
};
use crate::keys::{
    key_char, key_of_char, kmv_empty, kmv_get, kmv_insert, kmv_remove, KeyMap, KeyMapV,
    KeysToTemporalAction,
};
use vstd::prelude::*;
use vstd::string::*;

verus! {

/// The field delimiter of the token wire format.
pub const SLACK_INFO_DELIMITER: &'static str = ",";

/// The key/value delimiter of the token wire format.
pub const TEMPORAL_KEY_DELIMITER: &'static str = ":";

/// The delimiter reserved for user information appended to a token.
pub const USER_INFO_DELIMITER: &'static str = "~";

/// Why a token failed to decode.
#[derive(Debug, PartialEq)]
pub enum DecodeError {
    /// A field lacked the key/value delimiter; carries the field.
    MalformedPair(String),
    /// A key outside the registry; carries the text before the delimiter.
    UnknownKey(String),
    /// The event-type value names no variant; carries that value, or the
    /// empty string when the event-type key was absent altogether.
    UnknownVariant(String),
    /// A key the resolved variant requires was not present.
    KeyMissing(KeysToTemporalAction),
}

/// Mathematical form of a [`DecodeError`].
#[verifier::ext_equal]
pub ghost enum DecodeErrorV {
    MalformedPair(Seq<char>),
    UnknownKey(Seq<char>),
    UnknownVariant(Seq<char>),
    KeyMissing(KeysToTemporalAction),
}

impl View for DecodeError {
    type V = DecodeErrorV;

    open spec fn view(&self) -> DecodeErrorV {
        match self {
            DecodeError::MalformedPair(p) => DecodeErrorV::MalformedPair(p@),
            DecodeError::UnknownKey(k) => DecodeErrorV::UnknownKey(k@),
            DecodeError::UnknownVariant(v) => DecodeErrorV::UnknownVariant(v@),
            DecodeError::KeyMissing(k) => DecodeErrorV::KeyMissing(*k),
        }
    }
}

/// `s` split at the first `d`: the part before it and the part after it,
/// or nothing when `s` has no `d`.
pub open spec fn split_first(s: Seq<char>, d: char) -> Option<(Seq<char>, Seq<char>)>
    decreases s.len(),
{
    if s.len() == 0 {
        None
    } else if s[0] == d {
        Some((Seq::empty(), s.drop_first()))
    } else {
        match split_first(s.drop_first(), d) {
            None => None,
            Some((a, b)) => Some((seq![s[0]] + a, b)),
        }
    }
}

/// `s` split on every `d`, in order; always at least one piece.
pub open spec fn split_on(s: Seq<char>, d: char) -> Seq<Seq<char>>
    decreases s.len(),
{
    if s.len() == 0 {
        seq![Seq::<char>::empty()]
    } else if s[0] == d {
        seq![Seq::<char>::empty()] + split_on(s.drop_first(), d)
    } else {
        let rest = split_on(s.drop_first(), d);
        seq![seq![s[0]] + rest[0]] + rest.drop_first()
    }
}

/// The pieces joined with `d` between each two.
pub open spec fn join_with(ps: Seq<Seq<char>>, d: char) -> Seq<char>
    decreases ps.len(),
{
    if ps.len() == 0 {
        Seq::empty()
    } else if ps.len() == 1 {
        ps[0]
    } else {
        ps[0] + seq![d] + join_with(ps.drop_first(), d)
    }
}

/// Splitting a delimiter-free sequence yields that one piece.
proof fn lemma_split_on_single(s: Seq<char>, d: char)
    requires
        !s.contains(d),
    ensures
        split_on(s, d) == seq![s],
    decreases s.len(),
{
    if s.len() == 0 {
        assert(split_on(s, d) =~~= seq![s]);
    } else {
        assert(s[0] != d);
        assert(!s.drop_first().contains(d)) by {
            if s.drop_first().contains(d) {
                let i = choose|i: int| 0 <= i < s.drop_first().len() && s.drop_first()[i] == d;
                assert(s[i + 1] == d);
            }
        }
        lemma_split_on_single(s.drop_first(), d);
        assert(split_on(s, d) =~~= seq![s]) by {
            assert(seq![s[0]] + s.drop_first() =~= s);
        }
    }
}

/// Splitting `a + [d] + b` when `a` is delimiter-free peels `a` off as the
/// first piece.
proof fn lemma_split_on_peel(a: Seq<char>, b: Seq<char>, d: char)
    requires
        !a.contains(d),
    ensures
        split_on(a + seq![d] + b, d) == seq![a] + split_on(b, d),
    decreases a.len(),
{
    let s = a + seq![d] + b;
    if a.len() == 0 {
        assert(s[0] == d);
        assert(s.drop_first() =~= b);
        assert(split_on(s, d) =~~= seq![a] + split_on(b, d));
    } else {
        assert(s[0] == a[0]);
        assert(a[0] != d);
        assert(!a.drop_first().contains(d)) by {
            if a.drop_first().contains(d) {
                let i = choose|i: int| 0 <= i < a.drop_first().len() && a.drop_first()[i] == d;
                assert(a[i + 1] == d);
            }
        }
        lemma_split_on_peel(a.drop_first(), b, d);
        assert(s.drop_first() =~= a.drop_first() + seq![d] + b);
        let rest = split_on(s.drop_first(), d);
        assert(rest == seq![a.drop_first()] + split_on(b, d));
        assert(rest[0] == a.drop_first());
        assert(seq![s[0]] + rest[0] =~= a);
        assert(rest.drop_first() =~= split_on(b, d));
        assert(split_on(s, d) =~~= seq![a] + split_on(b, d));
    }
}

/// Splitting the join of delimiter-free pieces gives the pieces back.
proof fn lemma_split_join(ps: Seq<Seq<char>>, d: char)
    requires
        ps.len() >= 1,
        forall|i: int| 0 <= i < ps.len() ==> !(#[trigger] ps[i]).contains(d),
    ensures
        split_on(join_with(ps, d), d) == ps,
    decreases ps.len(),
{
    if ps.len() == 1 {
        lemma_split_on_single(ps[0], d);
        assert(split_on(join_with(ps, d), d) =~~= ps);
    } else {
        lemma_split_join(ps.drop_first(), d);
        lemma_split_on_peel(ps[0], join_with(ps.drop_first(), d), d);
        assert(split_on(join_with(ps, d), d) =~~= ps) by {
            assert(seq![ps[0]] + ps.drop_first() =~= ps);
        }
    }
}

/// The wire form of one key/value pair.
pub open spec fn kv(k: KeysToTemporalAction, v: Seq<char>) -> Seq<char> {
    seq![key_char(k), ':'] + v
}

/// The pairs a descriptor is flattened into, in registry order: the
/// event-type pair first, then one pair for each key the variant defines.
/// A key the variant defines as optional is emitted with an empty value
/// when it is absent.
pub open spec fn token_pairs(t: TemporalInteractionV) -> Seq<Seq<char>> {
    match t {
        TemporalInteractionV::Execute(e) => seq![
            kv(KeysToTemporalAction::E, "Execute"@),
            kv(KeysToTemporalAction::W, e.workflow_id),
            kv(KeysToTemporalAction::N, e.namespace),
            kv(KeysToTemporalAction::T, e.task_queue),
            kv(KeysToTemporalAction::Y, e.workflow_type),
        ],
        TemporalInteractionV::Signal(s) => seq![
            kv(KeysToTemporalAction::E, "Signal"@),
            kv(KeysToTemporalAction::W, opt_or_empty(s.workflow_id)),
            kv(KeysToTemporalAction::N, s.namespace),
            kv(KeysToTemporalAction::T, s.task_queue),
            kv(KeysToTemporalAction::R, opt_or_empty(s.run_id)),
            kv(KeysToTemporalAction::S, s.signal_name),
        ],
        TemporalInteractionV::Query(q) => seq![
            kv(KeysToTemporalAction::E, "Query"@),
            kv(KeysToTemporalAction::W, opt_or_empty(q.workflow_id)),
            kv(KeysToTemporalAction::N, q.namespace),
            kv(KeysToTemporalAction::T, q.task_queue),
            kv(KeysToTemporalAction::R, opt_or_empty(q.run_id)),
            kv(KeysToTemporalAction::Q, q.query_type),
            kv(KeysToTemporalAction::U, query_args_text(q)),
        ],
    }
}

/// What encoding a descriptor yields: its pairs joined with the field
/// delimiter.
pub open spec fn encode_spec(t: TemporalInteractionV) -> Seq<char> {
    join_with(token_pairs(t), ',')
}

/// Determinism: the token is a function of the descriptor's mathematical
/// form alone, so two encodings of equal descriptors are byte-identical.
/// [`build_slack_info_string`] promises exactly `encode_spec` of its
/// argument's view.
pub proof fn lemma_encode_deterministic(a: TemporalInteractionV, b: TemporalInteractionV)
    requires
        a == b,
    ensures
        encode_spec(a) == encode_spec(b),
{
}

proof fn lemma_join_five(
    p0: Seq<char>,
    p1: Seq<char>,
    p2: Seq<char>,
    p3: Seq<char>,
    p4: Seq<char>,
    d: char,
)
    ensures
        join_with(seq![p0, p1, p2, p3, p4], d) == p0 + seq![d] + p1 + seq![d] + p2 + seq![d] + p3
            + seq![d] + p4,
{
    reveal_with_fuel(join_with, 6);
    assert(seq![p0, p1, p2, p3, p4].drop_first() =~= seq![p1, p2, p3, p4]);
    assert(seq![p1, p2, p3, p4].drop_first() =~= seq![p2, p3, p4]);
    assert(seq![p2, p3, p4].drop_first() =~= seq![p3, p4]);
    assert(seq![p3, p4].drop_first() =~= seq![p4]);
    assert(join_with(seq![p0, p1, p2, p3, p4], d) =~= p0 + seq![d] + p1 + seq![d] + p2 + seq![d]
        + p3 + seq![d] + p4);
}

proof fn lemma_join_six(
    p0: Seq<char>,
    p1: Seq<char>,
    p2: Seq<char>,
    p3: Seq<char>,
    p4: Seq<char>,
    p5: Seq<char>,
    d: char,
)
    ensures
        join_with(seq![p0, p1, p2, p3, p4, p5], d) == p0 + seq![d] + p1 + seq![d] + p2 + seq![d]
            + p3 + seq![d] + p4 + seq![d] + p5,
{
    reveal_with_fuel(join_with, 7);
    assert(seq![p0, p1, p2, p3, p4, p5].drop_first() =~= seq![p1, p2, p3, p4, p5]);
    assert(seq![p1, p2, p3, p4, p5].drop_first() =~= seq![p2, p3, p4, p5]);
    assert(seq![p2, p3, p4, p5].drop_first() =~= seq![p3, p4, p5]);
    assert(seq![p3, p4, p5].drop_first() =~= seq![p4, p5]);
    assert(seq![p4, p5].drop_first() =~= seq![p5]);
    assert(join_with(seq![p0, p1, p2, p3, p4, p5], d) =~= p0 + seq![d] + p1 + seq![d] + p2
        + seq![d] + p3 + seq![d] + p4 + seq![d] + p5);
}

proof fn lemma_join_seven(
    p0: Seq<char>,
    p1: Seq<char>,
    p2: Seq<char>,
    p3: Seq<char>,
    p4: Seq<char>,
    p5: Seq<char>,
    p6: Seq<char>,
    d: char,
)
    ensures
        join_with(seq![p0, p1, p2, p3, p4, p5, p6], d) == p0 + seq![d] + p1 + seq![d] + p2
            + seq![d] + p3 + seq![d] + p4 + seq![d] + p5 + seq![d] + p6,
{
    reveal_with_fuel(join_with, 8);
    assert(seq![p0, p1, p2, p3, p4, p5, p6].drop_first() =~= seq![p1, p2, p3, p4, p5, p6]);
    assert(seq![p1, p2, p3, p4, p5, p6].drop_first() =~= seq![p2, p3, p4, p5, p6]);
    assert(seq![p2, p3, p4, p5, p6].drop_first() =~= seq![p3, p4, p5, p6]);
    assert(seq![p3, p4, p5, p6].drop_first() =~= seq![p4, p5, p6]);
    assert(seq![p4, p5, p6].drop_first() =~= seq![p5, p6]);
    assert(seq![p5, p6].drop_first() =~= seq![p6]);
    assert(join_with(seq![p0, p1, p2, p3, p4, p5, p6], d) =~= p0 + seq![d] + p1 + seq![d] + p2
        + seq![d] + p3 + seq![d] + p4 + seq![d] + p5 + seq![d] + p6);
}

/// Append the field delimiter and one `key:value` pair to a token being
/// built.
fn append_pair(out: &mut String, k: KeysToTemporalAction, v: &str)
    ensures
        final(out)@ == old(out)@ + seq![','] + kv(k, v@),
{
    proof {
        reveal_strlit(",");
    }
    out.append(",");
    let p = k.to_kv(v);
    out.append(p.as_str());
    proof {
        assert(final(out)@ =~= old(out)@ + seq![','] + kv(k, v@));
    }
}

/// Flatten a descriptor into its token: the event-type pair first, then one
/// `key:value` pair for each key the active variant defines, in registry
/// order, joined with `,`.
///
/// The token never carries the payload arguments themselves, except that a
/// query's `U` pair holds the textual form of its first argument.  Callers
/// must keep field values free of `,` and `:`; the encoder does not escape.
pub fn build_slack_info_string(temporal_interaction: TemporalInteraction) -> (r: String)
    ensures
        r@ == encode_spec(temporal_interaction@),
{
    let ghost tv = temporal_interaction@;
    let namespace = temporal_interaction.namespace();
    let task_queue = temporal_interaction.task_queue();
    let workflow_id = temporal_interaction.workflow_id();

    // the event type comes from the outer enum variant
    let type_string = temporal_interaction.to_type_string();
    let mut out = KeysToTemporalAction::E.to_kv(type_string.as_str());

    match &temporal_interaction {
        TemporalInteraction::Execute(action) => {
            append_pair(&mut out, KeysToTemporalAction::W, workflow_id.as_str());
            append_pair(&mut out, KeysToTemporalAction::N, namespace.as_str());
            append_pair(&mut out, KeysToTemporalAction::T, task_queue.as_str());
            append_pair(&mut out, KeysToTemporalAction::Y, action.workflow_type.as_str());
            proof {
                let ps = token_pairs(tv);
                lemma_join_five(ps[0], ps[1], ps[2], ps[3], ps[4], ',');
                assert(ps =~= seq![ps[0], ps[1], ps[2], ps[3], ps[4]]);
                assert(out@ =~= encode_spec(tv));
            }
        },
        TemporalInteraction::Signal(action) => {
            let run_id = action.run_id();
            append_pair(&mut out, KeysToTemporalAction::W, workflow_id.as_str());
            append_pair(&mut out, KeysToTemporalAction::N, namespace.as_str());
            append_pair(&mut out, KeysToTemporalAction::T, task_queue.as_str());
            append_pair(&mut out, KeysToTemporalAction::R, run_id.as_str());
            append_pair(&mut out, KeysToTemporalAction::S, action.signal_name.as_str());
            proof {
                let ps = token_pairs(tv);
                lemma_join_six(ps[0], ps[1], ps[2], ps[3], ps[4], ps[5], ',');
                assert(ps =~= seq![ps[0], ps[1], ps[2], ps[3], ps[4], ps[5]]);
                assert(out@ =~= encode_spec(tv));
            }
        },
        TemporalInteraction::Query(action) => {
            let run_id = action.run_id();
            let query_args = action.query_args();
            append_pair(&mut out, KeysToTemporalAction::W, workflow_id.as_str());
            append_pair(&mut out, KeysToTemporalAction::N, namespace.as_str());
            append_pair(&mut out, KeysToTemporalAction::T, task_queue.as_str());
            append_pair(&mut out, KeysToTemporalAction::R, run_id.as_str());
            append_pair(&mut out, KeysToTemporalAction::Q, action.query_type.as_str());
            append_pair(&mut out, KeysToTemporalAction::U, query_args.as_str());
            proof {
                let ps = token_pairs(tv);
                lemma_join_seven(ps[0], ps[1], ps[2], ps[3], ps[4], ps[5], ps[6], ',');
                assert(ps =~= seq![ps[0], ps[1], ps[2], ps[3], ps[4], ps[5], ps[6]]);
                assert(out@ =~= encode_spec(tv));
            }
        },
    }
    out
}

impl TemporalInteraction {
    /// The token this descriptor flattens to; see
    /// [`build_slack_info_string`].
    pub fn to_slack_string(self) -> (r: String)
        ensures
            r@ == encode_spec(self@),
    {
        build_slack_info_string(self)
    }
}

/// The views of a sequence of strings.
pub open spec fn seq_views(ss: Seq<String>) -> Seq<Seq<char>> {
    ss.map_values(|s: String| s@)
}

/// What parsing one raw `key:value` field yields: the registry key and the
/// value (everything after the first `:`), or the error the field provokes.
pub open spec fn parse_pair_spec(p: Seq<char>) -> Result<
    (KeysToTemporalAction, Seq<char>),
    DecodeErrorV,
> {
    match split_first(p, ':') {
        None => Err(DecodeErrorV::MalformedPair(p)),
        Some((kp, v)) => {
            if kp.len() == 1 && key_of_char(kp[0]) is Some {
                Ok((key_of_char(kp[0])->0, v))
            } else {
                Err(DecodeErrorV::UnknownKey(kp))
            }
        },
    }
}

/// The key map the raw fields build up, left to right, starting from `m`;
/// a later binding of a key overwrites an earlier one, and the first field
/// that fails to parse is the error of the whole token.
pub open spec fn pairs_to_map_from(m: KeyMapV, pairs: Seq<Seq<char>>) -> Result<
    KeyMapV,
    DecodeErrorV,
>
    decreases pairs.len(),
{
    if pairs.len() == 0 {
        Ok(m)
    } else {
        match parse_pair_spec(pairs[0]) {
            Err(e) => Err(e),
            Ok((k, v)) => pairs_to_map_from(kmv_insert(m, k, v), pairs.drop_first()),
        }
    }
}

/// One optional read: an absent or empty value is `None`, and a present
/// entry is consumed.
pub open spec fn opt_fetch(m: KeyMapV, k: KeysToTemporalAction) -> (Option<Seq<char>>, KeyMapV) {
    match kmv_get(m, k) {
        None => (None, m),
        Some(v) => (
            if v.len() == 0 {
                None
            } else {
                Some(v)
            },
            kmv_remove(m, k),
        ),
    }
}

/// The `Execute` descriptor a key map resolves to: workflow id, namespace,
/// task queue and workflow type are all required, in that order.
pub open spec fn decode_execute_spec(m: KeyMapV) -> Result<TemporalInteractionV, DecodeErrorV> {
    match kmv_get(m, KeysToTemporalAction::W) {
        None => Err(DecodeErrorV::KeyMissing(KeysToTemporalAction::W)),
        Some(w) => {
            let m1 = kmv_remove(m, KeysToTemporalAction::W);
            match kmv_get(m1, KeysToTemporalAction::N) {
                None => Err(DecodeErrorV::KeyMissing(KeysToTemporalAction::N)),
                Some(n) => {
                    let m2 = kmv_remove(m1, KeysToTemporalAction::N);
                    match kmv_get(m2, KeysToTemporalAction::T) {
                        None => Err(DecodeErrorV::KeyMissing(KeysToTemporalAction::T)),
                        Some(t) => {
                            let m3 = kmv_remove(m2, KeysToTemporalAction::T);
                            match kmv_get(m3, KeysToTemporalAction::Y) {
                                None => Err(DecodeErrorV::KeyMissing(KeysToTemporalAction::Y)),
                                Some(y) => Ok(
                                    TemporalInteractionV::Execute(
                                        (ExecuteTemporalWorkflowV {
                                            namespace: n,
                                            task_queue: t,
                                            workflow_id: w,
                                            workflow_type: y,
                                            args: None,
                                        }),
                                    ),
                                ),
                            }
                        },
                    }
                },
            }
        },
    }
}

/// The `Signal` descriptor a key map resolves to: namespace, task queue and
/// signal name are required, workflow id and run id are optional.
pub open spec fn decode_signal_spec(m: KeyMapV) -> Result<TemporalInteractionV, DecodeErrorV> {
    let wm = opt_fetch(m, KeysToTemporalAction::W);
    match kmv_get(wm.1, KeysToTemporalAction::N) {
        None => Err(DecodeErrorV::KeyMissing(KeysToTemporalAction::N)),
        Some(n) => {
            let m1 = kmv_remove(wm.1, KeysToTemporalAction::N);
            match kmv_get(m1, KeysToTemporalAction::T) {
                None => Err(DecodeErrorV::KeyMissing(KeysToTemporalAction::T)),
                Some(t) => {
                    let m2 = kmv_remove(m1, KeysToTemporalAction::T);
                    let rm = opt_fetch(m2, KeysToTemporalAction::R);
                    match kmv_get(rm.1, KeysToTemporalAction::S) {
                        None => Err(DecodeErrorV::KeyMissing(KeysToTemporalAction::S)),
                        Some(s) => Ok(
                            TemporalInteractionV::Signal(
                                (SignalTemporalV {
                                    namespace: n,
                                    task_queue: t,
                                    workflow_id: wm.0,
                                    run_id: rm.0,
                                    signal_name: s,
                                    input: None,
                                    identity: None,
                                    request_id: None,
                                    control: None,
                                }),
                            ),
                        ),
                    }
                },
            }
        },
    }
}

/// The `Query` descriptor a key map resolves to: namespace, task queue and
/// query type are required, workflow id and run id are optional.  The query
/// arguments never travel in the token; like any unread pair, a `U` pair is
/// ignored and the decoded descriptor carries no query arguments.
pub open spec fn decode_query_spec(m: KeyMapV) -> Result<TemporalInteractionV, DecodeErrorV> {
    let wm = opt_fetch(m, KeysToTemporalAction::W);
    match kmv_get(wm.1, KeysToTemporalAction::N) {
        None => Err(DecodeErrorV::KeyMissing(KeysToTemporalAction::N)),
        Some(n) => {
            let m1 = kmv_remove(wm.1, KeysToTemporalAction::N);
            match kmv_get(m1, KeysToTemporalAction::T) {
                None => Err(DecodeErrorV::KeyMissing(KeysToTemporalAction::T)),
                Some(t) => {
                    let m2 = kmv_remove(m1, KeysToTemporalAction::T);
                    let rm = opt_fetch(m2, KeysToTemporalAction::R);
                    match kmv_get(rm.1, KeysToTemporalAction::Q) {
                        None => Err(DecodeErrorV::KeyMissing(KeysToTemporalAction::Q)),
                        Some(q) => Ok(
                            TemporalInteractionV::Query(
                                (QueryTemporalV {
                                    namespace: n,
                                    task_queue: t,
                                    workflow_id: wm.0,
                                    run_id: rm.0,
                                    query_type: q,
                                    query_args: None,
                                }),
                            ),
                        ),
                    }
                },
            }
        },
    }
}

/// The descriptor a key map resolves to: the event-type value picks the
/// variant; an absent event-type key reads as the empty variant name.
pub open spec fn descriptor_of_map(m: KeyMapV) -> Result<TemporalInteractionV, DecodeErrorV> {
    match kmv_get(m, KeysToTemporalAction::E) {
        None => Err(DecodeErrorV::UnknownVariant(Seq::empty())),
        Some(ev) => {
            let m1 = kmv_remove(m, KeysToTemporalAction::E);
            if ev == "Execute"@ {
                decode_execute_spec(m1)
            } else if ev == "Signal"@ {
                decode_signal_spec(m1)
            } else if ev == "Query"@ {
                decode_query_spec(m1)
            } else {
                Err(DecodeErrorV::UnknownVariant(ev))
            }
        },
    }
}

/// What decoding a token yields: the descriptor it encodes, or the first
/// error its fields provoke.
pub open spec fn decode_spec(token: Seq<char>) -> Result<TemporalInteractionV, DecodeErrorV> {
    match pairs_to_map_from(kmv_empty(), split_on(token, ',')) {
        Err(e) => Err(e),
        Ok(m) => descriptor_of_map(m),
    }
}

/// The view of a decode result.
pub open spec fn decode_result_view(r: Result<TemporalInteraction, DecodeError>) -> Result<
    TemporalInteractionV,
    DecodeErrorV,
> {
    match r {
        Ok(d) => Ok(d@),
        Err(e) => Err(e@),
    }
}

/// A sequence without `d` splits at the first `d` to nothing.
proof fn lemma_split_first_none(s: Seq<char>, d: char)
    requires
        forall|m: int| 0 <= m < s.len() ==> s[m] != d,
    ensures
        split_first(s, d) is None,
    decreases s.len(),
{
    if s.len() > 0 {
        assert(forall|m: int| 0 <= m < s.drop_first().len() ==> s.drop_first()[m] == s[m + 1]);
        lemma_split_first_none(s.drop_first(), d);
    }
}

/// Splitting at the first `d` splits at the smallest index holding `d`.
proof fn lemma_split_first_at(s: Seq<char>, d: char, j: int)
    requires
        0 <= j < s.len(),
        s[j] == d,
        forall|m: int| 0 <= m < j ==> s[m] != d,
    ensures
        split_first(s, d) == Some((s.subrange(0, j), s.subrange(j + 1, s.len() as int))),
    decreases j,
{
    if j == 0 {
        assert(s.subrange(0, 0) =~= Seq::<char>::empty());
        assert(s.subrange(1, s.len() as int) =~= s.drop_first());
    } else {
        assert(s[0] != d);
        assert(forall|m: int| 0 <= m < s.drop_first().len() ==> s.drop_first()[m] == s[m + 1]);
        lemma_split_first_at(s.drop_first(), d, j - 1);
        assert(seq![s[0]] + s.drop_first().subrange(0, j - 1) =~= s.subrange(0, j));
        assert(s.drop_first().subrange(j, s.drop_first().len() as int) =~= s.subrange(
            j + 1,
            s.len() as int,
        ));
    }
}

/// The index of the first `d` in `p`, if there is one.
fn find_char_index(p: &str, d: char) -> (r: Option<usize>)
    ensures
        match r {
            Some(j) => j < p@.len() && p@[j as int] == d && forall|m: int| 0 <= m < j ==> p@[m]
                != d,
            None => forall|m: int| 0 <= m < p@.len() ==> p@[m] != d,
        },
{
    let len = p.unicode_len();
    let mut j: usize = 0;
    while j < len
        invariant
            j <= len,
            len == p@.len(),
            forall|m: int| 0 <= m < j ==> p@[m] != d,
        decreases len - j,
    {
        if p.get_char(j) == d {
            return Some(j);
        }
        j += 1;
    }
    None
}

/// Split a token into its raw fields, on every field delimiter.
fn split_token(s: &str) -> (parts: Vec<String>)
    ensures
        seq_views(parts@) == split_on(s@, ','),
{
    let len = s.unicode_len();
    let mut parts: Vec<String> = Vec::new();
    let mut start: usize = 0;
    let mut i: usize = 0;
    proof {
        assert(s@.subrange(0, len as int) =~= s@);
        assert(seq_views(parts@) =~= Seq::<Seq<char>>::empty());
    }
    while i < len
        invariant
            start <= i <= len,
            len == s@.len(),
            split_on(s@, ',') == seq_views(parts@) + split_on(
                s@.subrange(start as int, len as int),
                ',',
            ),
            forall|m: int| start <= m < i ==> s@[m] != ',',
        decreases len - i,
    {
        let c = s.get_char(i);
        if c == ',' {
            let ghost old_parts = parts@;
            let piece = s.substring_char(start, i).to_owned();
            parts.push(piece);
            proof {
                let a = s@.subrange(start as int, i as int);
                let b = s@.subrange(i as int + 1, len as int);
                assert(forall|m: int| 0 <= m < a.len() ==> a[m] == s@[start + m]);
                assert(!a.contains(',')) by {
                    if a.contains(',') {
                        let m = choose|m: int| 0 <= m < a.len() && a[m] == ',';
                        assert(s@[start + m] == ',');
                    }
                }
                assert(s@.subrange(start as int, len as int) =~= a + seq![','] + b);
                lemma_split_on_peel(a, b, ',');
                assert(seq_views(parts@) =~= seq_views(old_parts).push(a));
                assert(seq_views(parts@) + split_on(b, ',') =~= seq_views(old_parts) + (seq![a]
                    + split_on(b, ',')));
            }
            start = i + 1;
        }
        i += 1;
    }
    let ghost old_parts = parts@;
    let piece = s.substring_char(start, len).to_owned();
    parts.push(piece);
    proof {
        let a = s@.subrange(start as int, len as int);
        assert(forall|m: int| 0 <= m < a.len() ==> a[m] == s@[start + m]);
        assert(!a.contains(',')) by {
            if a.contains(',') {
                let m = choose|m: int| 0 <= m < a.len() && a[m] == ',';
                assert(s@[start + m] == ',');
            }
        }
        lemma_split_on_single(a, ',');
        assert(seq_views(parts@) =~= seq_views(old_parts).push(a));
        assert(seq_views(parts@) =~= split_on(s@, ','));
    }
    parts
}

/// Parse one raw field into its registry key and value.
fn parse_pair(p: &str) -> (r: Result<(KeysToTemporalAction, String), DecodeError>)
    ensures
        match r {
            Ok(kv_pair) => parse_pair_spec(p@) == Ok::<_, DecodeErrorV>(
                (kv_pair.0, kv_pair.1@),
            ),
            Err(e) => parse_pair_spec(p@) == Err::<(KeysToTemporalAction, Seq<char>), _>(e@),
        },
{
    let len = p.unicode_len();
    match find_char_index(p, ':') {
        None => {
            proof {
                lemma_split_first_none(p@, ':');
            }
            Err(DecodeError::MalformedPair(p.to_owned()))
        },
        Some(j) => {
            proof {
                lemma_split_first_at(p@, ':', j as int);
            }
            if j == 1 {
                let c = p.get_char(0);
                proof {
                    assert(p@.subrange(0, 1) =~= seq![p@[0]]);
                }
                match KeysToTemporalAction::from_char(c) {
                    Some(k) => {
                        let v = p.substring_char(j + 1, len).to_owned();
                        Ok((k, v))
                    },
                    None => Err(DecodeError::UnknownKey(p.substring_char(0, 1).to_owned())),
                }
            } else {
                let kp = p.substring_char(0, j).to_owned();
                proof {
                    assert(p@.subrange(0, j as int).len() != 1);
                }
                Err(DecodeError::UnknownKey(kp))
            }
        },
    }
}

/// Build the one-shot key map from the raw fields, left to right.
fn token_to_map(parts: &Vec<String>) -> (r: Result<KeyMap, DecodeError>)
    ensures
        match r {
            Ok(m) => pairs_to_map_from(kmv_empty(), seq_views(parts@)) == Ok::<_, DecodeErrorV>(
                m@,
            ),
            Err(e) => pairs_to_map_from(kmv_empty(), seq_views(parts@)) == Err::<KeyMapV, _>(e@),
        },
{
    let ghost all = seq_views(parts@);
    let mut map = KeyMap::new();
    let mut i: usize = 0;
    proof {
        assert(all.skip(0) =~= all);
    }
    while i < parts.len()
        invariant
            i <= parts.len(),
            all == seq_views(parts@),
            pairs_to_map_from(kmv_empty(), all) == pairs_to_map_from(
                map@,
                all.skip(i as int),
            ),
        decreases parts.len() - i,
    {
        let ghost rest = all.skip(i as int);
        proof {
            assert(rest[0] == parts@[i as int]@);
            assert(rest.drop_first() =~= all.skip(i as int + 1));
        }
        match parse_pair(parts[i].as_str()) {
            Ok(kv_pair) => {
                let (k, v) = kv_pair;
                map.set(k, v);
            },
            Err(e) => {
                return Err(e);
            },
        }
        i += 1;
    }
    proof {
        assert(all.skip(i as int) =~= Seq::<Seq<char>>::empty());
    }
    Ok(map)
}

/// One optional read from the key map: an absent or empty value is `None`;
/// a present entry is consumed.
fn opt_get(k: KeysToTemporalAction, map: &mut KeyMap) -> (r: Option<String>)
    ensures
        opt_view(r) == opt_fetch(old(map)@, k).0,
        final(map)@ == opt_fetch(old(map)@, k).1,
{
    match k.get_value(map) {
        Err(_) => None,
        Ok(v) => {
            if v.as_str().is_empty() {
                None
            } else {
                Some(v)
            }
        },
    }
}

/// Extract the fields of an `Execute` descriptor from the key map.
fn decode_execute_fields(mut map: KeyMap) -> (r: Result<TemporalInteraction, DecodeError>)
    ensures
        decode_result_view(r) == decode_execute_spec(map@),
{
    let w = match KeysToTemporalAction::W.get_value(&mut map) {
        Ok(v) => v,
        Err(e) => {
            return Err(e);
        },
    };
    let n = match KeysToTemporalAction::N.get_value(&mut map) {
        Ok(v) => v,
        Err(e) => {
            return Err(e);
        },
    };
    let t = match KeysToTemporalAction::T.get_value(&mut map) {
        Ok(v) => v,
        Err(e) => {
            return Err(e);
        },
    };
    let y = match KeysToTemporalAction::Y.get_value(&mut map) {
        Ok(v) => v,
        Err(e) => {
            return Err(e);
        },
    };
    Ok(
        TemporalInteraction::Execute(
            ExecuteTemporalWorkflow {
                namespace: n,
                task_queue: t,
                workflow_id: w,
                workflow_type: y,
                args: None,
            },
        ),
    )
}

/// Extract the fields of a `Signal` descriptor from the key map.
fn decode_signal_fields(mut map: KeyMap) -> (r: Result<TemporalInteraction, DecodeError>)
    ensures
        decode_result_view(r) == decode_signal_spec(map@),
{
    let w = opt_get(KeysToTemporalAction::W, &mut map);
    let n = match KeysToTemporalAction::N.get_value(&mut map) {
        Ok(v) => v,
        Err(e) => {
            return Err(e);
        },
    };
    let t = match KeysToTemporalAction::T.get_value(&mut map) {
        Ok(v) => v,
        Err(e) => {
            return Err(e);
        },
    };
    let run_id = opt_get(KeysToTemporalAction::R, &mut map);
    let s = match KeysToTemporalAction::S.get_value(&mut map) {
        Ok(v) => v,
        Err(e) => {
            return Err(e);
        },
    };
    Ok(
        TemporalInteraction::Signal(
            SignalTemporal {
                namespace: n,
                task_queue: t,
                workflow_id: w,
                run_id,
                signal_name: s,
                input: None,
                identity: None,
                request_id: None,
                control: None,
            },
        ),
    )
}

/// Extract the fields of a `Query` descriptor from the key map.
fn decode_query_fields(mut map: KeyMap) -> (r: Result<TemporalInteraction, DecodeError>)
    ensures
        decode_result_view(r) == decode_query_spec(map@),
{
    let w = opt_get(KeysToTemporalAction::W, &mut map);
    let n = match KeysToTemporalAction::N.get_value(&mut map) {
        Ok(v) => v,
        Err(e) => {
            return Err(e);
        },
    };
    let t = match KeysToTemporalAction::T.get_value(&mut map) {
        Ok(v) => v,
        Err(e) => {
            return Err(e);
        },
    };
    let run_id = opt_get(KeysToTemporalAction::R, &mut map);
    let q = match KeysToTemporalAction::Q.get_value(&mut map) {
        Ok(v) => v,
        Err(e) => {
            return Err(e);
        },
    };
    Ok(
        TemporalInteraction::Query(
            QueryTemporal {
                namespace: n,
                task_queue: t,
                workflow_id: w,
                run_id,
                query_type: q,
                query_args: None,
            },
        ),
    )
}

/// Parse a token back into the descriptor it encodes.
///
/// The token is split on `,` into fields and each field at its first `:`
/// into a registry key and a value; the event-type value picks the variant,
/// whose required keys are then read one-shot from the field map.  Keys the
/// variant does not read are ignored, so a token may carry extra pairs under
/// registered keys without failing.  The first offending field decides the
/// error, exactly as [`decode_spec`] states.
pub fn decode_slack_info_string(token: &str) -> (r: Result<TemporalInteraction, DecodeError>)
    ensures
        decode_result_view(r) == decode_spec(token@),
{
    let parts = split_token(token);
    let mut map = match token_to_map(&parts) {
        Ok(m) => m,
        Err(e) => {
            return Err(e);
        },
    };
    let ev = match KeysToTemporalAction::E.get_value(&mut map) {
        Ok(v) => v,
        Err(_) => {
            return Err(DecodeError::UnknownVariant(String::new()));
        },
    };
    if ev == "Execute".to_owned() {
        decode_execute_fields(map)
    } else if ev == "Signal".to_owned() {
        decode_signal_fields(map)
    } else if ev == "Query".to_owned() {
        decode_query_fields(map)
    } else {
        Err(DecodeError::UnknownVariant(ev))
    }
}

/// A sequence free of both wire delimiters.
pub open spec fn delimiter_free(s: Seq<char>) -> bool {
    !s.contains(',') && !s.contains(':')
}

/// An optional field that survives the wire: absent, or non-empty and
/// delimiter-free.  (An empty present value encodes exactly as an absent
/// one, so it cannot come back as `Some`.)
pub open spec fn opt_round_trippable(o: Option<Seq<char>>) -> bool {
    match o {
        None => true,
        Some(s) => s.len() > 0 && delimiter_free(s),
    }
}

/// A descriptor whose routing fields survive the wire: every encoded value
/// is free of the field delimiter, and optional fields are absent or
/// non-empty.
pub open spec fn round_trippable(t: TemporalInteractionV) -> bool {
    match t {
        TemporalInteractionV::Execute(e) => delimiter_free(e.workflow_id) && delimiter_free(
            e.namespace,
        ) && delimiter_free(e.task_queue) && delimiter_free(e.workflow_type),
        TemporalInteractionV::Signal(s) => opt_round_trippable(s.workflow_id) && delimiter_free(
            s.namespace,
        ) && delimiter_free(s.task_queue) && opt_round_trippable(s.run_id) && delimiter_free(
            s.signal_name,
        ),
        TemporalInteractionV::Query(q) => opt_round_trippable(q.workflow_id) && delimiter_free(
            q.namespace,
        ) && delimiter_free(q.task_queue) && opt_round_trippable(q.run_id) && delimiter_free(
            q.query_type,
        ) && !query_args_text(q).contains(','),
    }
}

/// The descriptor that comes back from the wire: the same routing fields,
/// with the out-of-band payload fields empty.
pub open spec fn decoded_form(t: TemporalInteractionV) -> TemporalInteractionV {
    match t {
        TemporalInteractionV::Execute(e) => TemporalInteractionV::Execute(
            (ExecuteTemporalWorkflowV { args: None, ..e }),
        ),
        TemporalInteractionV::Signal(s) => TemporalInteractionV::Signal(
            (SignalTemporalV { input: None, identity: None, request_id: None, control: None, ..s }),
        ),
        TemporalInteractionV::Query(q) => TemporalInteractionV::Query(
            (QueryTemporalV { query_args: None, ..q }),
        ),
    }
}

/// A `key:value` pair with a comma-free value is comma-free.
proof fn lemma_kv_comma_free(k: KeysToTemporalAction, v: Seq<char>)
    requires
        !v.contains(','),
    ensures
        !kv(k, v).contains(','),
{
    let p = kv(k, v);
    assert forall|m: int| 0 <= m < p.len() implies p[m] != ',' by {
        if m >= 2 {
            assert(p[m] == v[m - 2]);
            if v[m - 2] == ',' {
                assert(v.contains(','));
            }
        }
    }
    if p.contains(',') {
        let m = choose|m: int| 0 <= m < p.len() && p[m] == ',';
    }
}

/// A `key:value` pair parses back to its key and value.
proof fn lemma_parse_kv(k: KeysToTemporalAction, v: Seq<char>)
    ensures
        parse_pair_spec(kv(k, v)) == Ok::<(KeysToTemporalAction, Seq<char>), DecodeErrorV>((k, v)),
{
    let p = kv(k, v);
    assert(p[0] == key_char(k));
    assert(p[1] == ':');
    assert(key_char(k) != ':');
    lemma_split_first_at(p, ':', 1);
    assert(p.subrange(0, 1) =~= seq![key_char(k)]);
    assert(p.subrange(2, p.len() as int) =~= v);
    assert(key_of_char(key_char(k)) == Some(k));
}

/// Five parsed pairs build the five inserts, in order.
proof fn lemma_map_of_five(
    k0: KeysToTemporalAction,
    v0: Seq<char>,
    k1: KeysToTemporalAction,
    v1: Seq<char>,
    k2: KeysToTemporalAction,
    v2: Seq<char>,
    k3: KeysToTemporalAction,
    v3: Seq<char>,
    k4: KeysToTemporalAction,
    v4: Seq<char>,
)
    ensures
        pairs_to_map_from(
            kmv_empty(),
            seq![kv(k0, v0), kv(k1, v1), kv(k2, v2), kv(k3, v3), kv(k4, v4)],
        ) == Ok::<KeyMapV, DecodeErrorV>(
            kmv_insert(
                kmv_insert(
                    kmv_insert(
                        kmv_insert(kmv_insert(kmv_empty(), k0, v0), k1, v1),
                        k2,
                        v2,
                    ),
                    k3,
                    v3,
                ),
                k4,
                v4,
            ),
        ),
{
    reveal_with_fuel(pairs_to_map_from, 7);
    lemma_parse_kv(k0, v0);
    lemma_parse_kv(k1, v1);
    lemma_parse_kv(k2, v2);
    lemma_parse_kv(k3, v3);
    lemma_parse_kv(k4, v4);
    let ps = seq![kv(k0, v0), kv(k1, v1), kv(k2, v2), kv(k3, v3), kv(k4, v4)];
    assert(ps.drop_first() =~= seq![kv(k1, v1), kv(k2, v2), kv(k3, v3), kv(k4, v4)]);
    assert(seq![kv(k1, v1), kv(k2, v2), kv(k3, v3), kv(k4, v4)].drop_first() =~= seq![
        kv(k2, v2),
        kv(k3, v3),
        kv(k4, v4),
    ]);
    assert(seq![kv(k2, v2), kv(k3, v3), kv(k4, v4)].drop_first() =~= seq![
        kv(k3, v3),
        kv(k4, v4),
    ]);
    assert(seq![kv(k3, v3), kv(k4, v4)].drop_first() =~= seq![kv(k4, v4)]);
    assert(seq![kv(k4, v4)].drop_first() =~= Seq::<Seq<char>>::empty());
}

/// Six parsed pairs build the six inserts, in order.
proof fn lemma_map_of_six(
    k0: KeysToTemporalAction,
    v0: Seq<char>,
    k1: KeysToTemporalAction,
    v1: Seq<char>,
    k2: KeysToTemporalAction,
    v2: Seq<char>,
    k3: KeysToTemporalAction,
    v3: Seq<char>,
    k4: KeysToTemporalAction,
    v4: Seq<char>,
    k5: KeysToTemporalAction,
    v5: Seq<char>,
)
    ensures
        pairs_to_map_from(
            kmv_empty(),
            seq![kv(k0, v0), kv(k1, v1), kv(k2, v2), kv(k3, v3), kv(k4, v4), kv(k5, v5)],
        ) == Ok::<KeyMapV, DecodeErrorV>(
            kmv_insert(
                kmv_insert(
                    kmv_insert(
                        kmv_insert(
                            kmv_insert(kmv_insert(kmv_empty(), k0, v0), k1, v1),
                            k2,
                            v2,
                        ),
                        k3,
                        v3,
                    ),
                    k4,
                    v4,
                ),
                k5,
                v5,
            ),
        ),
{
    reveal_with_fuel(pairs_to_map_from, 8);
    lemma_parse_kv(k0, v0);
    lemma_parse_kv(k1, v1);
    lemma_parse_kv(k2, v2);
    lemma_parse_kv(k3, v3);
    lemma_parse_kv(k4, v4);
    lemma_parse_kv(k5, v5);
    let ps = seq![kv(k0, v0), kv(k1, v1), kv(k2, v2), kv(k3, v3), kv(k4, v4), kv(k5, v5)];
    assert(ps.drop_first() =~= seq![
        kv(k1, v1),
        kv(k2, v2),
        kv(k3, v3),
        kv(k4, v4),
        kv(k5, v5),
    ]);
    assert(seq![kv(k1, v1), kv(k2, v2), kv(k3, v3), kv(k4, v4), kv(k5, v5)].drop_first() =~= seq![
        kv(k2, v2),
        kv(k3, v3),
        kv(k4, v4),
        kv(k5, v5),
    ]);
    assert(seq![kv(k2, v2), kv(k3, v3), kv(k4, v4), kv(k5, v5)].drop_first() =~= seq![
        kv(k3, v3),
        kv(k4, v4),
        kv(k5, v5),
    ]);
    assert(seq![kv(k3, v3), kv(k4, v4), kv(k5, v5)].drop_first() =~= seq![
        kv(k4, v4),
        kv(k5, v5),
    ]);
    assert(seq![kv(k4, v4), kv(k5, v5)].drop_first() =~= seq![kv(k5, v5)]);
    assert(seq![kv(k5, v5)].drop_first() =~= Seq::<Seq<char>>::empty());
}

/// Seven parsed pairs build the seven inserts, in order.
proof fn lemma_map_of_seven(
    k0: KeysToTemporalAction,
    v0: Seq<char>,
    k1: KeysToTemporalAction,
    v1: Seq<char>,
    k2: KeysToTemporalAction,
    v2: Seq<char>,
    k3: KeysToTemporalAction,
    v3: Seq<char>,
    k4: KeysToTemporalAction,
    v4: Seq<char>,
    k5: KeysToTemporalAction,
    v5: Seq<char>,
    k6: KeysToTemporalAction,
    v6: Seq<char>,
)
    ensures
        pairs_to_map_from(
            kmv_empty(),
            seq![
                kv(k0, v0),
                kv(k1, v1),
                kv(k2, v2),
                kv(k3, v3),
                kv(k4, v4),
                kv(k5, v5),
                kv(k6, v6),
            ],
        ) == Ok::<KeyMapV, DecodeErrorV>(
            kmv_insert(
                kmv_insert(
                    kmv_insert(
                        kmv_insert(
                            kmv_insert(
                                kmv_insert(kmv_insert(kmv_empty(), k0, v0), k1, v1),
                                k2,
                                v2,
                            ),
                            k3,
                            v3,
                        ),
                        k4,
                        v4,
                    ),
                    k5,
                    v5,
                ),
                k6,
                v6,
            ),
        ),
{
    reveal_with_fuel(pairs_to_map_from, 9);
    lemma_parse_kv(k0, v0);
    lemma_parse_kv(k1, v1);
    lemma_parse_kv(k2, v2);
    lemma_parse_kv(k3, v3);
    lemma_parse_kv(k4, v4);
    lemma_parse_kv(k5, v5);
    lemma_parse_kv(k6, v6);
    let ps = seq![
        kv(k0, v0),
        kv(k1, v1),
        kv(k2, v2),
        kv(k3, v3),
        kv(k4, v4),
        kv(k5, v5),
        kv(k6, v6),
    ];
    assert(ps.drop_first() =~= seq![
        kv(k1, v1),
        kv(k2, v2),
        kv(k3, v3),
        kv(k4, v4),
        kv(k5, v5),
        kv(k6, v6),
    ]);
    assert(seq![kv(k1, v1), kv(k2, v2), kv(k3, v3), kv(k4, v4), kv(k5, v5), kv(k6, v6)]
        .drop_first() =~= seq![kv(k2, v2), kv(k3, v3), kv(k4, v4), kv(k5, v5), kv(k6, v6)]);
    assert(seq![kv(k2, v2), kv(k3, v3), kv(k4, v4), kv(k5, v5), kv(k6, v6)].drop_first() =~= seq![
        kv(k3, v3),
        kv(k4, v4),
        kv(k5, v5),
        kv(k6, v6),
    ]);
    assert(seq![kv(k3, v3), kv(k4, v4), kv(k5, v5), kv(k6, v6)].drop_first() =~= seq![
        kv(k4, v4),
        kv(k5, v5),
        kv(k6, v6),
    ]);
    assert(seq![kv(k4, v4), kv(k5, v5), kv(k6, v6)].drop_first() =~= seq![
        kv(k5, v5),
        kv(k6, v6),
    ]);
    assert(seq![kv(k5, v5), kv(k6, v6)].drop_first() =~= seq![kv(k6, v6)]);
    assert(seq![kv(k6, v6)].drop_first() =~= Seq::<Seq<char>>::empty());
}

/// The three variant names differ pairwise.
proof fn lemma_variant_names_distinct()
    ensures
        "Execute"@ != "Signal"@,
        "Execute"@ != "Query"@,
        "Signal"@ != "Query"@,
        "Execute"@.len() == 7,
        "Signal"@.len() == 6,
        "Query"@.len() == 5,
{
    reveal_strlit("Execute");
    reveal_strlit("Signal");
    reveal_strlit("Query");
    assert("Execute"@ != "Signal"@) by {
        if "Execute"@ == "Signal"@ {
            assert("Execute"@.len() == "Signal"@.len());
        }
    }
    assert("Execute"@ != "Query"@) by {
        if "Execute"@ == "Query"@ {
            assert("Execute"@.len() == "Query"@.len());
        }
    }
    assert("Signal"@ != "Query"@) by {
        if "Signal"@ == "Query"@ {
            assert("Signal"@.len() == "Query"@.len());
        }
    }
}

/// Round trip: a descriptor whose routing fields survive the wire decodes,
/// from its own encoding, back to itself — the same variant and the same
/// routing fields, with the out-of-band payload fields empty.
#[verifier::rlimit(60)]
pub proof fn lemma_round_trip(t: TemporalInteractionV)
    requires
        round_trippable(t),
    ensures
        decode_spec(encode_spec(t)) == Ok::<TemporalInteractionV, DecodeErrorV>(decoded_form(t)),
{
    lemma_variant_names_distinct();
    let ps = token_pairs(t);
    match t {
        TemporalInteractionV::Execute(e) => {
            assert(!"Execute"@.contains(',')) by {
                reveal_strlit("Execute");
                if "Execute"@.contains(',') {
                    let m = choose|m: int| 0 <= m < 7 && "Execute"@[m] == ',';
                }
            }
            lemma_kv_comma_free(KeysToTemporalAction::E, "Execute"@);
            lemma_kv_comma_free(KeysToTemporalAction::W, e.workflow_id);
            lemma_kv_comma_free(KeysToTemporalAction::N, e.namespace);
            lemma_kv_comma_free(KeysToTemporalAction::T, e.task_queue);
            lemma_kv_comma_free(KeysToTemporalAction::Y, e.workflow_type);
            assert(forall|i: int| 0 <= i < ps.len() ==> !(#[trigger] ps[i]).contains(','));
            lemma_split_join(ps, ',');
            lemma_map_of_five(
                KeysToTemporalAction::E,
                "Execute"@,
                KeysToTemporalAction::W,
                e.workflow_id,
                KeysToTemporalAction::N,
                e.namespace,
                KeysToTemporalAction::T,
                e.task_queue,
                KeysToTemporalAction::Y,
                e.workflow_type,
            );
            assert(ps =~= seq![
                kv(KeysToTemporalAction::E, "Execute"@),
                kv(KeysToTemporalAction::W, e.workflow_id),
                kv(KeysToTemporalAction::N, e.namespace),
                kv(KeysToTemporalAction::T, e.task_queue),
                kv(KeysToTemporalAction::Y, e.workflow_type),
            ]);
            let m5 = kmv_insert(
                kmv_insert(
                    kmv_insert(
                        kmv_insert(
                            kmv_insert(kmv_empty(), KeysToTemporalAction::E, "Execute"@),
                            KeysToTemporalAction::W,
                            e.workflow_id,
                        ),
                        KeysToTemporalAction::N,
                        e.namespace,
                    ),
                    KeysToTemporalAction::T,
                    e.task_queue,
                ),
                KeysToTemporalAction::Y,
                e.workflow_type,
            );
            assert(split_on(encode_spec(t), ',') == ps);
            assert(pairs_to_map_from(kmv_empty(), split_on(encode_spec(t), ','))
                == Ok::<KeyMapV, DecodeErrorV>(m5));
            assert(kmv_get(m5, KeysToTemporalAction::E) == Some("Execute"@));
            assert(decode_spec(encode_spec(t)) == decode_execute_spec(
                kmv_remove(m5, KeysToTemporalAction::E),
            ));
            assert(decode_execute_spec(kmv_remove(m5, KeysToTemporalAction::E))
                =~~= Ok::<TemporalInteractionV, DecodeErrorV>(decoded_form(t)));
        },
        TemporalInteractionV::Signal(s) => {
            let wid = opt_or_empty(s.workflow_id);
            let rid = opt_or_empty(s.run_id);
            assert(!"Signal"@.contains(',')) by {
                reveal_strlit("Signal");
                if "Signal"@.contains(',') {
                    let m = choose|m: int| 0 <= m < 6 && "Signal"@[m] == ',';
                }
            }
            lemma_kv_comma_free(KeysToTemporalAction::E, "Signal"@);
            lemma_kv_comma_free(KeysToTemporalAction::W, wid);
            lemma_kv_comma_free(KeysToTemporalAction::N, s.namespace);
            lemma_kv_comma_free(KeysToTemporalAction::T, s.task_queue);
            lemma_kv_comma_free(KeysToTemporalAction::R, rid);
            lemma_kv_comma_free(KeysToTemporalAction::S, s.signal_name);
            assert(forall|i: int| 0 <= i < ps.len() ==> !(#[trigger] ps[i]).contains(','));
            lemma_split_join(ps, ',');
            lemma_map_of_six(
                KeysToTemporalAction::E,
                "Signal"@,
                KeysToTemporalAction::W,
                wid,
                KeysToTemporalAction::N,
                s.namespace,
                KeysToTemporalAction::T,
                s.task_queue,
                KeysToTemporalAction::R,
                rid,
                KeysToTemporalAction::S,
                s.signal_name,
            );
            assert(ps =~= seq![
                kv(KeysToTemporalAction::E, "Signal"@),
                kv(KeysToTemporalAction::W, wid),
                kv(KeysToTemporalAction::N, s.namespace),
                kv(KeysToTemporalAction::T, s.task_queue),
                kv(KeysToTemporalAction::R, rid),
                kv(KeysToTemporalAction::S, s.signal_name),
            ]);
            let m6 = kmv_insert(
                kmv_insert(
                    kmv_insert(
                        kmv_insert(
                            kmv_insert(
                                kmv_insert(kmv_empty(), KeysToTemporalAction::E, "Signal"@),
                                KeysToTemporalAction::W,
                                wid,
                            ),
                            KeysToTemporalAction::N,
                            s.namespace,
                        ),
                        KeysToTemporalAction::T,
                        s.task_queue,
                    ),
                    KeysToTemporalAction::R,
                    rid,
                ),
                KeysToTemporalAction::S,
                s.signal_name,
            );
            assert(split_on(encode_spec(t), ',') == ps);
            assert(pairs_to_map_from(kmv_empty(), split_on(encode_spec(t), ','))
                == Ok::<KeyMapV, DecodeErrorV>(m6));
            assert(kmv_get(m6, KeysToTemporalAction::E) == Some("Signal"@));
            assert(decode_spec(encode_spec(t)) == decode_signal_spec(
                kmv_remove(m6, KeysToTemporalAction::E),
            ));
            assert(decode_signal_spec(kmv_remove(m6, KeysToTemporalAction::E))
                =~~= Ok::<TemporalInteractionV, DecodeErrorV>(decoded_form(t)));
        },
        TemporalInteractionV::Query(q) => {
            let wid = opt_or_empty(q.workflow_id);
            let rid = opt_or_empty(q.run_id);
            let qa = query_args_text(q);
            assert(!"Query"@.contains(',')) by {
                reveal_strlit("Query");
                if "Query"@.contains(',') {
                    let m = choose|m: int| 0 <= m < 5 && "Query"@[m] == ',';
                }
            }
            lemma_kv_comma_free(KeysToTemporalAction::E, "Query"@);
            lemma_kv_comma_free(KeysToTemporalAction::W, wid);
            lemma_kv_comma_free(KeysToTemporalAction::N, q.namespace);
            lemma_kv_comma_free(KeysToTemporalAction::T, q.task_queue);
            lemma_kv_comma_free(KeysToTemporalAction::Q, q.query_type);
            lemma_kv_comma_free(KeysToTemporalAction::U, qa);
            lemma_kv_comma_free(KeysToTemporalAction::R, rid);
            assert(forall|i: int| 0 <= i < ps.len() ==> !(#[trigger] ps[i]).contains(','));
            lemma_split_join(ps, ',');
            lemma_map_of_seven(
                KeysToTemporalAction::E,
                "Query"@,
                KeysToTemporalAction::W,
                wid,
                KeysToTemporalAction::N,
                q.namespace,
                KeysToTemporalAction::T,
                q.task_queue,
                KeysToTemporalAction::R,
                rid,
                KeysToTemporalAction::Q,
                q.query_type,
                KeysToTemporalAction::U,
                qa,
            );
            assert(ps =~= seq![
                kv(KeysToTemporalAction::E, "Query"@),
                kv(KeysToTemporalAction::W, wid),
                kv(KeysToTemporalAction::N, q.namespace),
                kv(KeysToTemporalAction::T, q.task_queue),
                kv(KeysToTemporalAction::R, rid),
                kv(KeysToTemporalAction::Q, q.query_type),
                kv(KeysToTemporalAction::U, qa),
            ]);
            let m7 = kmv_insert(
                kmv_insert(
                    kmv_insert(
                        kmv_insert(
                            kmv_insert(
                                kmv_insert(
                                    kmv_insert(kmv_empty(), KeysToTemporalAction::E, "Query"@),
                                    KeysToTemporalAction::W,
                                    wid,
                                ),
                                KeysToTemporalAction::N,
                                q.namespace,
                            ),
                            KeysToTemporalAction::T,
                            q.task_queue,
                        ),
                        KeysToTemporalAction::R,
                        rid,
                    ),
                    KeysToTemporalAction::Q,
                    q.query_type,
                ),
                KeysToTemporalAction::U,
                qa,
            );
            assert(split_on(encode_spec(t), ',') == ps);
            assert(pairs_to_map_from(kmv_empty(), split_on(encode_spec(t), ','))
                == Ok::<KeyMapV, DecodeErrorV>(m7));
            assert(kmv_get(m7, KeysToTemporalAction::E) == Some("Query"@));
            assert(decode_spec(encode_spec(t)) == decode_query_spec(
                kmv_remove(m7, KeysToTemporalAction::E),
            ));
            assert(decode_query_spec(kmv_remove(m7, KeysToTemporalAction::E))
                =~~= Ok::<TemporalInteractionV, DecodeErrorV>(decoded_form(t)));
        },
    }
}

/// Whether decoding a descriptor of `t`'s variant reads the key `k`.
pub open spec fn variant_reads(t: TemporalInteractionV, k: KeysToTemporalAction) -> bool {
    match t {
        TemporalInteractionV::Execute(_) => k == KeysToTemporalAction::E || k
            == KeysToTemporalAction::W || k == KeysToTemporalAction::N || k
            == KeysToTemporalAction::T || k == KeysToTemporalAction::Y,
        TemporalInteractionV::Signal(_) => k == KeysToTemporalAction::E || k
            == KeysToTemporalAction::W || k == KeysToTemporalAction::N || k
            == KeysToTemporalAction::T || k == KeysToTemporalAction::R || k
            == KeysToTemporalAction::S,
        TemporalInteractionV::Query(_) => k == KeysToTemporalAction::E || k
            == KeysToTemporalAction::W || k == KeysToTemporalAction::N || k
            == KeysToTemporalAction::T || k == KeysToTemporalAction::R || k
            == KeysToTemporalAction::Q,
    }
}

/// A split always yields at least one piece.
proof fn lemma_split_on_nonempty(s: Seq<char>, d: char)
    ensures
        split_on(s, d).len() >= 1,
{
}

/// Appending a delimiter and a delimiter-free piece appends one piece to
/// the split.
proof fn lemma_split_on_append(s: Seq<char>, p: Seq<char>, d: char)
    requires
        !p.contains(d),
    ensures
        split_on(s + seq![d] + p, d) == split_on(s, d).push(p),
    decreases s.len(),
{
    let s2 = s + seq![d] + p;
    if s.len() == 0 {
        assert(s2[0] == d);
        assert(s2.drop_first() =~= p);
        lemma_split_on_single(p, d);
        assert(split_on(s2, d) =~~= split_on(s, d).push(p));
    } else if s[0] == d {
        assert(s2[0] == d);
        assert(s2.drop_first() =~= s.drop_first() + seq![d] + p);
        lemma_split_on_append(s.drop_first(), p, d);
        assert(split_on(s2, d) =~~= split_on(s, d).push(p));
    } else {
        assert(s2[0] == s[0]);
        assert(s2.drop_first() =~= s.drop_first() + seq![d] + p);
        lemma_split_on_append(s.drop_first(), p, d);
        lemma_split_on_nonempty(s.drop_first(), d);
        let rest = split_on(s.drop_first(), d);
        assert(split_on(s2.drop_first(), d) == rest.push(p));
        assert(rest.push(p)[0] == rest[0]);
        assert(rest.push(p).drop_first() =~= rest.drop_first().push(p));
        assert(split_on(s2, d) =~~= split_on(s, d).push(p));
    }
}

/// Processing one more raw field parses it and inserts its binding, unless
/// an error already stands.
proof fn lemma_pairs_to_map_push(m: KeyMapV, ps: Seq<Seq<char>>, pr: Seq<char>)
    ensures
        pairs_to_map_from(m, ps.push(pr)) == (match pairs_to_map_from(m, ps) {
            Err(e) => Err::<KeyMapV, DecodeErrorV>(e),
            Ok(m2) => match parse_pair_spec(pr) {
                Err(e) => Err(e),
                Ok(kvp) => Ok(kmv_insert(m2, kvp.0, kvp.1)),
            },
        }),
    decreases ps.len(),
{
    reveal_with_fuel(pairs_to_map_from, 3);
    if ps.len() == 0 {
        assert(ps.push(pr)[0] == pr);
        assert(ps.push(pr).drop_first() =~= Seq::<Seq<char>>::empty());
    } else {
        assert(ps.push(pr)[0] == ps[0]);
        assert(ps.push(pr).drop_first() =~= ps.drop_first().push(pr));
        match parse_pair_spec(ps[0]) {
            Err(_) => {},
            Ok(kvp) => {
                lemma_pairs_to_map_push(kmv_insert(m, kvp.0, kvp.1), ps.drop_first(), pr);
            },
        }
    }
}

/// Binding a key the resolved variant never reads changes nothing in what
/// the key map resolves to.
proof fn lemma_descriptor_insert_unread(m: KeyMapV, k: KeysToTemporalAction, v: Seq<char>)
    requires
        descriptor_of_map(m) is Ok,
        !variant_reads(descriptor_of_map(m)->Ok_0, k),
    ensures
        descriptor_of_map(kmv_insert(m, k, v)) == descriptor_of_map(m),
{
}

/// Forward compatibility: a token that decodes may carry one more pair
/// under a registered key the resolved variant does not read; the extra
/// pair changes nothing in what the token decodes to.
pub proof fn lemma_unread_pair_ignored(token: Seq<char>, k: KeysToTemporalAction, v: Seq<char>)
    requires
        decode_spec(token) is Ok,
        !variant_reads(decode_spec(token)->Ok_0, k),
        !v.contains(','),
    ensures
        decode_spec(token + seq![','] + kv(k, v)) == decode_spec(token),
{
    let ps = split_on(token, ',');
    lemma_kv_comma_free(k, v);
    lemma_split_on_append(token, kv(k, v), ',');
    lemma_pairs_to_map_push(kmv_empty(), ps, kv(k, v));
    lemma_parse_kv(k, v);
    let m = pairs_to_map_from(kmv_empty(), ps)->Ok_0;
    lemma_descriptor_insert_unread(m, k, v);
}

} // verus!
