//! The persisted image: three tables of rows behind the container signature.
//!
//! `DbContent` is the mathematical model of everything the database
//! persists. `spec_image` gives the exact bytes an export produces, and
//! `parse_image` the exact meaning of any byte string handed to an import.
//! The round-trip lemma ties the two together.

use vstd::prelude::*;

use crate::codec::{
    enc_bool, enc_i64, enc_opt_u32, enc_opt_u64, enc_str, enc_u32, enc_u64, lemma_parse_bool,
    lemma_parse_i64, lemma_parse_opt_u32, lemma_parse_opt_u64, lemma_parse_str, lemma_parse_u32,
    lemma_parse_u64, parse_bool, parse_char, parse_chars, parse_i64, parse_opt_u32, parse_opt_u64,
    parse_str, parse_u32, parse_u64, signature,
};

verus! {

/// A row of the sessions table.
pub struct SessionRowV {
    /// Row id, 1-based and dense.
    pub id: i64,
    /// Name of the exercise the session is for.
    pub exercise_name: Seq<char>,
    /// Milliseconds timestamp at which the session started.
    pub started_at: u64,
    /// Milliseconds timestamp at which the session completed, if it has.
    pub completed_at: Option<u64>,
}

/// A row of the completed-sets table.
pub struct SetRowV {
    /// Row id, 1-based and dense.
    pub id: i64,
    /// The session this set belongs to.
    pub session_id: i64,
    /// Sequential set number within the session.
    pub set_number: u32,
    /// Repetitions completed.
    pub reps: u32,
    /// RPE in tenths.
    pub rpe: u32,
    /// Weight in hundredths of a kilogram; absent for bodyweight sets.
    pub weight: Option<u32>,
    /// Whether the set was performed with bodyweight only.
    pub is_bodyweight: bool,
}

/// A row of the exercises table, keyed by its unique name.
pub struct ExerciseRowV {
    /// Unique exercise name.
    pub name: Seq<char>,
    /// Whether the exercise is weighted.
    pub is_weighted: bool,
    /// Minimum weight in hundredths of a kilogram, for weighted exercises.
    pub min_weight: Option<u32>,
    /// Weight increment in hundredths of a kilogram, for weighted exercises.
    pub increment: Option<u32>,
}

/// Everything the database persists: the three tables, in order.
pub struct DbContent {
    /// Rows of the sessions table.
    pub sessions: Seq<SessionRowV>,
    /// Rows of the completed-sets table.
    pub sets: Seq<SetRowV>,
    /// Rows of the exercises table.
    pub exercises: Seq<ExerciseRowV>,
}

/// Bounds that every encodable content satisfies: string lengths and row
/// counts fit in the 64-bit fields that carry them.
pub open spec fn wf_session_row(r: SessionRowV) -> bool {
    r.exercise_name.len() < 0x1_0000_0000_0000_0000
}

/// Bounds that every encodable exercise row satisfies.
pub open spec fn wf_exercise_row(r: ExerciseRowV) -> bool {
    r.name.len() < 0x1_0000_0000_0000_0000
}

/// Bounds that every encodable content satisfies.
pub open spec fn wf_content(c: DbContent) -> bool {
    &&& c.sessions.len() < 0x1_0000_0000_0000_0000
    &&& c.sets.len() < 0x1_0000_0000_0000_0000
    &&& c.exercises.len() < 0x1_0000_0000_0000_0000
    &&& forall|k: int| 0 <= k < c.sessions.len() ==> wf_session_row(#[trigger] c.sessions[k])
    &&& forall|k: int| 0 <= k < c.exercises.len() ==> wf_exercise_row(#[trigger] c.exercises[k])
}

/// Bytes of one session row.
pub open spec fn enc_session(r: SessionRowV) -> Seq<u8> {
    enc_i64(r.id) + enc_str(r.exercise_name) + enc_u64(r.started_at) + enc_opt_u64(r.completed_at)
}

/// Bytes of one completed-set row.
pub open spec fn enc_set(r: SetRowV) -> Seq<u8> {
    enc_i64(r.id) + enc_i64(r.session_id) + enc_u32(r.set_number) + enc_u32(r.reps) + enc_u32(r.rpe)
        + enc_opt_u32(r.weight) + enc_bool(r.is_bodyweight)
}

/// Bytes of one exercise row.
pub open spec fn enc_exercise(r: ExerciseRowV) -> Seq<u8> {
    enc_str(r.name) + enc_bool(r.is_weighted) + enc_opt_u32(r.min_weight) + enc_opt_u32(r.increment)
}

/// Bytes of the session rows, one after another.
pub open spec fn enc_sessions(rows: Seq<SessionRowV>) -> Seq<u8>
    decreases rows.len(),
{
    if rows.len() == 0 {
        Seq::empty()
    } else {
        enc_session(rows[0]) + enc_sessions(rows.drop_first())
    }
}

/// Bytes of the completed-set rows, one after another.
pub open spec fn enc_sets(rows: Seq<SetRowV>) -> Seq<u8>
    decreases rows.len(),
{
    if rows.len() == 0 {
        Seq::empty()
    } else {
        enc_set(rows[0]) + enc_sets(rows.drop_first())
    }
}

/// Bytes of the exercise rows, one after another.
pub open spec fn enc_exercises(rows: Seq<ExerciseRowV>) -> Seq<u8>
    decreases rows.len(),
{
    if rows.len() == 0 {
        Seq::empty()
    } else {
        enc_exercise(rows[0]) + enc_exercises(rows.drop_first())
    }
}

/// Bytes of the whole content: each table as a row count and its rows.
pub open spec fn enc_content(c: DbContent) -> Seq<u8> {
    enc_u64(c.sessions.len() as u64) + enc_sessions(c.sessions) + enc_u64(c.sets.len() as u64)
        + enc_sets(c.sets) + enc_u64(c.exercises.len() as u64) + enc_exercises(c.exercises)
}

/// The full image: the container signature followed by the content.
pub open spec fn spec_image(c: DbContent) -> Seq<u8> {
    signature() + enc_content(c)
}

/// Reads one session row.
pub open spec fn parse_session(s: Seq<u8>, i: int) -> Option<(SessionRowV, int)> {
    match parse_i64(s, i) {
        Some((id, i1)) => match parse_str(s, i1) {
            Some((exercise_name, i2)) => match parse_u64(s, i2) {
                Some((started_at, i3)) => match parse_opt_u64(s, i3) {
                    Some((completed_at, i4)) => Some(
                        (SessionRowV { id, exercise_name, started_at, completed_at }, i4),
                    ),
                    None => None,
                },
                None => None,
            },
            None => None,
        },
        None => None,
    }
}

/// Reads one completed-set row.
pub open spec fn parse_set(s: Seq<u8>, i: int) -> Option<(SetRowV, int)> {
    match parse_i64(s, i) {
        Some((id, i1)) => match parse_i64(s, i1) {
            Some((session_id, i2)) => match parse_u32(s, i2) {
                Some((set_number, i3)) => match parse_u32(s, i3) {
                    Some((reps, i4)) => match parse_u32(s, i4) {
                        Some((rpe, i5)) => match parse_opt_u32(s, i5) {
                            Some((weight, i6)) => match parse_bool(s, i6) {
                                Some((is_bodyweight, i7)) => Some(
                                    (
                                        SetRowV {
                                            id,
                                            session_id,
                                            set_number,
                                            reps,
                                            rpe,
                                            weight,
                                            is_bodyweight,
                                        },
                                        i7,
                                    ),
                                ),
                                None => None,
                            },
                            None => None,
                        },
                        None => None,
                    },
                    None => None,
                },
                None => None,
            },
            None => None,
        },
        None => None,
    }
}

/// Reads one exercise row.
pub open spec fn parse_exercise(s: Seq<u8>, i: int) -> Option<(ExerciseRowV, int)> {
    match parse_str(s, i) {
        Some((name, i1)) => match parse_bool(s, i1) {
            Some((is_weighted, i2)) => match parse_opt_u32(s, i2) {
                Some((min_weight, i3)) => match parse_opt_u32(s, i3) {
                    Some((increment, i4)) => Some(
                        (ExerciseRowV { name, is_weighted, min_weight, increment }, i4),
                    ),
                    None => None,
                },
                None => None,
            },
            None => None,
        },
        None => None,
    }
}

/// Reads exactly `count` session rows.
pub open spec fn parse_sessions(s: Seq<u8>, i: int, count: nat) -> Option<(Seq<SessionRowV>, int)>
    decreases count,
{
    if count == 0 {
        if 0 <= i <= s.len() {
            Some((Seq::empty(), i))
        } else {
            None
        }
    } else {
        match parse_session(s, i) {
            Some((r, j)) => match parse_sessions(s, j, (count - 1) as nat) {
                Some((rest, k)) => Some((seq![r] + rest, k)),
                None => None,
            },
            None => None,
        }
    }
}

/// Reads exactly `count` completed-set rows.
pub open spec fn parse_sets(s: Seq<u8>, i: int, count: nat) -> Option<(Seq<SetRowV>, int)>
    decreases count,
{
    if count == 0 {
        if 0 <= i <= s.len() {
            Some((Seq::empty(), i))
        } else {
            None
        }
    } else {
        match parse_set(s, i) {
            Some((r, j)) => match parse_sets(s, j, (count - 1) as nat) {
                Some((rest, k)) => Some((seq![r] + rest, k)),
                None => None,
            },
            None => None,
        }
    }
}

/// Reads exactly `count` exercise rows.
pub open spec fn parse_exercises(s: Seq<u8>, i: int, count: nat) -> Option<(Seq<ExerciseRowV>, int)>
    decreases count,
{
    if count == 0 {
        if 0 <= i <= s.len() {
            Some((Seq::empty(), i))
        } else {
            None
        }
    } else {
        match parse_exercise(s, i) {
            Some((r, j)) => match parse_exercises(s, j, (count - 1) as nat) {
                Some((rest, k)) => Some((seq![r] + rest, k)),
                None => None,
            },
            None => None,
        }
    }
}

/// Reads the whole content: three row counts, each followed by its rows.
pub open spec fn parse_content(s: Seq<u8>, i: int) -> Option<(DbContent, int)> {
    match parse_u64(s, i) {
        Some((n1, i1)) => match parse_sessions(s, i1, n1 as nat) {
            Some((sessions, i2)) => match parse_u64(s, i2) {
                Some((n2, i3)) => match parse_sets(s, i3, n2 as nat) {
                    Some((sets, i4)) => match parse_u64(s, i4) {
                        Some((n3, i5)) => match parse_exercises(s, i5, n3 as nat) {
                            Some((exercises, i6)) => Some(
                                (DbContent { sessions, sets, exercises }, i6),
                            ),
                            None => None,
                        },
                        None => None,
                    },
                    None => None,
                },
                None => None,
            },
            None => None,
        },
        None => None,
    }
}

/// The meaning of a byte string handed to an import: it decodes exactly
/// when it carries the signature, a well-formed content, and nothing else.
pub open spec fn parse_image(s: Seq<u8>) -> Option<DbContent> {
    if s.len() >= 16 && s.subrange(0, 16) == signature() {
        match parse_content(s, 16) {
            Some((c, end)) => if end == s.len() {
                Some(c)
            } else {
                None
            },
            None => None,
        }
    } else {
        None
    }
}

/// Splitting a window known to hold a concatenation into its two parts.
pub proof fn lemma_split_concat(s: Seq<u8>, i: int, a: Seq<u8>, b: Seq<u8>)
    requires
        0 <= i,
        i + a.len() + b.len() <= s.len(),
        s.subrange(i, i + a.len() + b.len()) =~= a + b,
    ensures
        s.subrange(i, i + a.len()) =~= a,
        s.subrange(i + a.len(), i + a.len() + b.len()) =~= b,
{
    assert forall|k: int| 0 <= k < a.len() implies #[trigger] s.subrange(i, i + a.len())[k]
        == a[k] by {
        assert(s.subrange(i, i + a.len() + b.len())[k] == s[i + k]);
        assert((a + b)[k] == a[k]);
    }
    assert forall|k: int| 0 <= k < b.len() implies #[trigger] s.subrange(
        i + a.len(),
        i + a.len() + b.len(),
    )[k] == b[k] by {
        assert(s.subrange(i, i + a.len() + b.len())[k + a.len()] == s[i + a.len() + k]);
        assert((a + b)[k + a.len()] == b[k]);
    }
}

/// Parsing the encoding of one session row yields the row back.
pub proof fn lemma_parse_session(s: Seq<u8>, i: int, r: SessionRowV)
    requires
        0 <= i,
        wf_session_row(r),
        i + enc_session(r).len() <= s.len(),
        s.subrange(i, i + enc_session(r).len()) =~= enc_session(r),
    ensures
        parse_session(s, i) == Some((r, i + enc_session(r).len())),
{
    let e1 = enc_i64(r.id);
    let e2 = enc_str(r.exercise_name);
    let e3 = enc_u64(r.started_at);
    let e4 = enc_opt_u64(r.completed_at);
    let i1 = i + e1.len();
    let i2 = i1 + e2.len();
    let i3 = i2 + e3.len();
    let i4 = i3 + e4.len();
    assert(enc_session(r) =~= (e1 + e2 + e3) + e4);
    lemma_split_concat(s, i, e1 + e2 + e3, e4);
    assert(e1 + e2 + e3 =~= (e1 + e2) + e3);
    lemma_split_concat(s, i, e1 + e2, e3);
    lemma_split_concat(s, i, e1, e2);
    lemma_parse_i64(s, i, r.id);
    lemma_parse_str(s, i1, r.exercise_name);
    lemma_parse_u64(s, i2, r.started_at);
    lemma_parse_opt_u64(s, i3, r.completed_at);
}

/// Parsing the encoding of one completed-set row yields the row back.
pub proof fn lemma_parse_set(s: Seq<u8>, i: int, r: SetRowV)
    requires
        0 <= i,
        i + enc_set(r).len() <= s.len(),
        s.subrange(i, i + enc_set(r).len()) =~= enc_set(r),
    ensures
        parse_set(s, i) == Some((r, i + enc_set(r).len())),
{
    let e1 = enc_i64(r.id);
    let e2 = enc_i64(r.session_id);
    let e3 = enc_u32(r.set_number);
    let e4 = enc_u32(r.reps);
    let e5 = enc_u32(r.rpe);
    let e6 = enc_opt_u32(r.weight);
    let e7 = enc_bool(r.is_bodyweight);
    let i1 = i + e1.len();
    let i2 = i1 + e2.len();
    let i3 = i2 + e3.len();
    let i4 = i3 + e4.len();
    let i5 = i4 + e5.len();
    let i6 = i5 + e6.len();
    assert(enc_set(r) =~= (e1 + e2 + e3 + e4 + e5 + e6) + e7);
    lemma_split_concat(s, i, e1 + e2 + e3 + e4 + e5 + e6, e7);
    assert(e1 + e2 + e3 + e4 + e5 + e6 =~= (e1 + e2 + e3 + e4 + e5) + e6);
    lemma_split_concat(s, i, e1 + e2 + e3 + e4 + e5, e6);
    assert(e1 + e2 + e3 + e4 + e5 =~= (e1 + e2 + e3 + e4) + e5);
    lemma_split_concat(s, i, e1 + e2 + e3 + e4, e5);
    assert(e1 + e2 + e3 + e4 =~= (e1 + e2 + e3) + e4);
    lemma_split_concat(s, i, e1 + e2 + e3, e4);
    assert(e1 + e2 + e3 =~= (e1 + e2) + e3);
    lemma_split_concat(s, i, e1 + e2, e3);
    lemma_split_concat(s, i, e1, e2);
    lemma_parse_i64(s, i, r.id);
    lemma_parse_i64(s, i1, r.session_id);
    lemma_parse_u32(s, i2, r.set_number);
    lemma_parse_u32(s, i3, r.reps);
    lemma_parse_u32(s, i4, r.rpe);
    lemma_parse_opt_u32(s, i5, r.weight);
    lemma_parse_bool(s, i6, r.is_bodyweight);
}

/// Parsing the encoding of one exercise row yields the row back.
pub proof fn lemma_parse_exercise(s: Seq<u8>, i: int, r: ExerciseRowV)
    requires
        0 <= i,
        wf_exercise_row(r),
        i + enc_exercise(r).len() <= s.len(),
        s.subrange(i, i + enc_exercise(r).len()) =~= enc_exercise(r),
    ensures
        parse_exercise(s, i) == Some((r, i + enc_exercise(r).len())),
{
    let e1 = enc_str(r.name);
    let e2 = enc_bool(r.is_weighted);
    let e3 = enc_opt_u32(r.min_weight);
    let e4 = enc_opt_u32(r.increment);
    let i1 = i + e1.len();
    let i2 = i1 + e2.len();
    let i3 = i2 + e3.len();
    assert(enc_exercise(r) =~= (e1 + e2 + e3) + e4);
    lemma_split_concat(s, i, e1 + e2 + e3, e4);
    assert(e1 + e2 + e3 =~= (e1 + e2) + e3);
    lemma_split_concat(s, i, e1 + e2, e3);
    lemma_split_concat(s, i, e1, e2);
    lemma_parse_str(s, i, r.name);
    lemma_parse_bool(s, i1, r.is_weighted);
    lemma_parse_opt_u32(s, i2, r.min_weight);
    lemma_parse_opt_u32(s, i3, r.increment);
}

/// Parsing the encoding of the session rows yields them back.
pub proof fn lemma_parse_sessions(s: Seq<u8>, i: int, rows: Seq<SessionRowV>)
    requires
        0 <= i,
        forall|k: int| 0 <= k < rows.len() ==> wf_session_row(#[trigger] rows[k]),
        i + enc_sessions(rows).len() <= s.len(),
        s.subrange(i, i + enc_sessions(rows).len()) =~= enc_sessions(rows),
    ensures
        parse_sessions(s, i, rows.len()) == Some((rows, i + enc_sessions(rows).len())),
    decreases rows.len(),
{
    if rows.len() == 0 {
        assert(rows =~= Seq::<SessionRowV>::empty());
    } else {
        let head = enc_session(rows[0]);
        let tail = enc_sessions(rows.drop_first());
        lemma_split_concat(s, i, head, tail);
        lemma_parse_session(s, i, rows[0]);
        lemma_parse_sessions(s, i + head.len(), rows.drop_first());
        assert(seq![rows[0]] + rows.drop_first() =~= rows);
    }
}

/// Parsing the encoding of the completed-set rows yields them back.
pub proof fn lemma_parse_sets(s: Seq<u8>, i: int, rows: Seq<SetRowV>)
    requires
        0 <= i,
        i + enc_sets(rows).len() <= s.len(),
        s.subrange(i, i + enc_sets(rows).len()) =~= enc_sets(rows),
    ensures
        parse_sets(s, i, rows.len()) == Some((rows, i + enc_sets(rows).len())),
    decreases rows.len(),
{
    if rows.len() == 0 {
        assert(rows =~= Seq::<SetRowV>::empty());
    } else {
        let head = enc_set(rows[0]);
        let tail = enc_sets(rows.drop_first());
        lemma_split_concat(s, i, head, tail);
        lemma_parse_set(s, i, rows[0]);
        lemma_parse_sets(s, i + head.len(), rows.drop_first());
        assert(seq![rows[0]] + rows.drop_first() =~= rows);
    }
}

/// Parsing the encoding of the exercise rows yields them back.
pub proof fn lemma_parse_exercises(s: Seq<u8>, i: int, rows: Seq<ExerciseRowV>)
    requires
        0 <= i,
        forall|k: int| 0 <= k < rows.len() ==> wf_exercise_row(#[trigger] rows[k]),
        i + enc_exercises(rows).len() <= s.len(),
        s.subrange(i, i + enc_exercises(rows).len()) =~= enc_exercises(rows),
    ensures
        parse_exercises(s, i, rows.len()) == Some((rows, i + enc_exercises(rows).len())),
    decreases rows.len(),
{
    if rows.len() == 0 {
        assert(rows =~= Seq::<ExerciseRowV>::empty());
    } else {
        let head = enc_exercise(rows[0]);
        let tail = enc_exercises(rows.drop_first());
        lemma_split_concat(s, i, head, tail);
        lemma_parse_exercise(s, i, rows[0]);
        lemma_parse_exercises(s, i + head.len(), rows.drop_first());
        assert(seq![rows[0]] + rows.drop_first() =~= rows);
    }
}

/// Parsing the encoding of a well-formed content yields it back.
#[verifier::rlimit(100)]
pub proof fn lemma_parse_content(s: Seq<u8>, i: int, c: DbContent)
    requires
        0 <= i,
        wf_content(c),
        i + enc_content(c).len() <= s.len(),
        s.subrange(i, i + enc_content(c).len()) =~= enc_content(c),
    ensures
        parse_content(s, i) == Some((c, i + enc_content(c).len())),
{
    let e1 = enc_u64(c.sessions.len() as u64);
    let e2 = enc_sessions(c.sessions);
    let e3 = enc_u64(c.sets.len() as u64);
    let e4 = enc_sets(c.sets);
    let e5 = enc_u64(c.exercises.len() as u64);
    let e6 = enc_exercises(c.exercises);
    let i1 = i + e1.len();
    let i2 = i1 + e2.len();
    let i3 = i2 + e3.len();
    let i4 = i3 + e4.len();
    let i5 = i4 + e5.len();
    assert(enc_content(c) =~= (e1 + e2 + e3 + e4 + e5) + e6);
    lemma_split_concat(s, i, e1 + e2 + e3 + e4 + e5, e6);
    assert(e1 + e2 + e3 + e4 + e5 =~= (e1 + e2 + e3 + e4) + e5);
    lemma_split_concat(s, i, e1 + e2 + e3 + e4, e5);
    assert(e1 + e2 + e3 + e4 =~= (e1 + e2 + e3) + e4);
    lemma_split_concat(s, i, e1 + e2 + e3, e4);
    assert(e1 + e2 + e3 =~= (e1 + e2) + e3);
    lemma_split_concat(s, i, e1 + e2, e3);
    lemma_split_concat(s, i, e1, e2);
    lemma_parse_u64(s, i, c.sessions.len() as u64);
    lemma_parse_sessions(s, i1, c.sessions);
    lemma_parse_u64(s, i2, c.sets.len() as u64);
    lemma_parse_sets(s, i3, c.sets);
    lemma_parse_u64(s, i4, c.exercises.len() as u64);
    lemma_parse_exercises(s, i5, c.exercises);
    assert((c.sessions.len() as u64) as nat == c.sessions.len());
    assert((c.sets.len() as u64) as nat == c.sets.len());
    assert((c.exercises.len() as u64) as nat == c.exercises.len());
}

/// Round trip: the image of any well-formed content parses back to exactly
/// that content — same rows in each of the three tables.
pub proof fn lemma_image_round_trip(c: DbContent)
    requires
        wf_content(c),
    ensures
        parse_image(spec_image(c)) == Some(c),
{
    let s = spec_image(c);
    assert(s.subrange(0, 16 + enc_content(c).len() as int) =~= signature() + enc_content(c));
    lemma_split_concat(s, 0, signature(), enc_content(c));
    lemma_parse_content(s, 16, c);
}

/// Every exported image begins with the 16-byte container signature.
pub proof fn lemma_image_begins_with_signature(c: DbContent)
    ensures
        spec_image(c).len() >= 16,
        spec_image(c).subrange(0, 16) == signature(),
{
    assert(spec_image(c).subrange(0, 16) =~= signature());
}

/// A parsed character sequence has exactly the announced length.
pub proof fn lemma_parse_chars_count(s: Seq<u8>, i: int, count: nat)
    ensures
        parse_chars(s, i, count) matches Some((cs, _j)) ==> cs.len() == count,
    decreases count,
{
    if count != 0 {
        match parse_char(s, i) {
            Some((c, j)) => {
                lemma_parse_chars_count(s, j, (count - 1) as nat);
            },
            None => {},
        }
    }
}

/// A parsed string is short enough to be encoded again.
pub proof fn lemma_parse_str_len(s: Seq<u8>, i: int)
    ensures
        parse_str(s, i) matches Some((cs, _j)) ==> cs.len() < 0x1_0000_0000_0000_0000,
{
    match parse_u64(s, i) {
        Some((n, j)) => {
            lemma_parse_chars_count(s, j, n as nat);
        },
        None => {},
    }
}

/// A parsed session row is well formed.
pub proof fn lemma_parse_session_wf(s: Seq<u8>, i: int)
    ensures
        parse_session(s, i) matches Some((r, _j)) ==> wf_session_row(r),
{
    match parse_i64(s, i) {
        Some((_id, i1)) => {
            lemma_parse_str_len(s, i1);
        },
        None => {},
    }
}

/// A parsed exercise row is well formed.
pub proof fn lemma_parse_exercise_wf(s: Seq<u8>, i: int)
    ensures
        parse_exercise(s, i) matches Some((r, _j)) ==> wf_exercise_row(r),
{
    lemma_parse_str_len(s, i);
}

/// Parsed session rows have the announced count and are well formed.
pub proof fn lemma_parse_sessions_wf(s: Seq<u8>, i: int, count: nat)
    ensures
        parse_sessions(s, i, count) matches Some((rows, _j)) ==> rows.len() == count && forall|
            k: int,
        | 0 <= k < rows.len() ==> wf_session_row(#[trigger] rows[k]),
    decreases count,
{
    if count != 0 {
        match parse_session(s, i) {
            Some((r, j)) => {
                lemma_parse_session_wf(s, i);
                lemma_parse_sessions_wf(s, j, (count - 1) as nat);
            },
            None => {},
        }
    }
}

/// Parsed set rows have the announced count.
pub proof fn lemma_parse_sets_count(s: Seq<u8>, i: int, count: nat)
    ensures
        parse_sets(s, i, count) matches Some((rows, _j)) ==> rows.len() == count,
    decreases count,
{
    if count != 0 {
        match parse_set(s, i) {
            Some((r, j)) => {
                lemma_parse_sets_count(s, j, (count - 1) as nat);
            },
            None => {},
        }
    }
}

/// Parsed exercise rows have the announced count and are well formed.
pub proof fn lemma_parse_exercises_wf(s: Seq<u8>, i: int, count: nat)
    ensures
        parse_exercises(s, i, count) matches Some((rows, _j)) ==> rows.len() == count && forall|
            k: int,
        | 0 <= k < rows.len() ==> wf_exercise_row(#[trigger] rows[k]),
    decreases count,
{
    if count != 0 {
        match parse_exercise(s, i) {
            Some((r, j)) => {
                lemma_parse_exercise_wf(s, i);
                lemma_parse_exercises_wf(s, j, (count - 1) as nat);
            },
            None => {},
        }
    }
}

/// Whatever content parses out of a byte string is well formed, so it can
/// be encoded again.
pub proof fn lemma_parse_content_wf(s: Seq<u8>, i: int)
    ensures
        parse_content(s, i) matches Some((c, _j)) ==> wf_content(c),
{
    match parse_u64(s, i) {
        Some((n1, i1)) => {
            lemma_parse_sessions_wf(s, i1, n1 as nat);
            match parse_sessions(s, i1, n1 as nat) {
                Some((_sessions, i2)) => {
                    match parse_u64(s, i2) {
                        Some((n2, i3)) => {
                            lemma_parse_sets_count(s, i3, n2 as nat);
                            match parse_sets(s, i3, n2 as nat) {
                                Some((_sets, i4)) => {
                                    match parse_u64(s, i4) {
                                        Some((n3, i5)) => {
                                            lemma_parse_exercises_wf(s, i5, n3 as nat);
                                        },
                                        None => {},
                                    }
                                },
                                None => {},
                            }
                        },
                        None => {},
                    }
                },
                None => {},
            }
        },
        None => {},
    }
}

} // verus!
