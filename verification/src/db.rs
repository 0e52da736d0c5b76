//! The embedded database: three in-memory tables with full export/import.
//!
//! `Database` holds the rows the application persists. Its abstract value is
//! a `DbContent`; every operation's contract says exactly how it changes the
//! tables. `export` produces the byte image described in `crate::image`, and
//! `init` accepts exactly the byte strings that parse back to a content
//! satisfying the database's integrity constraints.

use vstd::prelude::*;

use crate::codec::{
    push_bool, push_i64, push_opt_u32, push_opt_u64, push_str, push_u32, push_u64, read_bool,
    read_i64, read_opt_u32, read_opt_u64, read_str, read_u32, read_u64, signature,
    signature_byte,
};
use crate::image::{
    enc_exercise, enc_exercises, enc_session, enc_sessions, enc_set, enc_sets,
    lemma_image_round_trip, lemma_parse_content_wf, parse_exercise, parse_exercises, parse_image,
    parse_session, parse_sessions, parse_set, parse_sets, spec_image, wf_content, DbContent,
    ExerciseRowV, SessionRowV, SetRowV,
};
use crate::models::{CompletedSet, ExerciseMetadata, SetType, SetTypeConfig};
use vstd::string::StrSliceExecFns;

verus! {

/// Largest row id the database will hand out.
pub const MAX_ROW_ID: u64 = 0x7fff_ffff_ffff_ffff;

/// Errors surfaced by the database layer.
#[derive(Clone, Copy, Debug, PartialEq, Eq, Structural)]
pub enum DatabaseError {
    /// The byte image handed to `init` was not a valid database image.
    InitializationError,
    /// A statement could not be carried out (the table is full).
    QueryError,
    /// `init` has not succeeded yet.
    NotInitialized,
}

/// A stored row of the sessions table.
pub struct SessionRow {
    /// Row id, 1-based and dense.
    pub id: i64,
    /// Name of the exercise the session is for.
    pub exercise_name: String,
    /// Milliseconds timestamp at which the session started.
    pub started_at: u64,
    /// Milliseconds timestamp at which the session completed, if it has.
    pub completed_at: Option<u64>,
}

impl View for SessionRow {
    type V = SessionRowV;

    open spec fn view(&self) -> SessionRowV {
        SessionRowV {
            id: self.id,
            exercise_name: self.exercise_name@,
            started_at: self.started_at,
            completed_at: self.completed_at,
        }
    }
}

/// A stored row of the completed-sets table.
pub struct SetRow {
    /// Row id, 1-based and dense.
    pub id: i64,
    /// The session this set belongs to.
    pub session_id: i64,
    /// Sequential set number within the session.
    pub set_number: u32,
    /// Repetitions completed.
    pub reps: u32,
    /// RPE in tenths.
    pub rpe: u32,
    /// Weight in hundredths of a kilogram; absent for bodyweight sets.
    pub weight: Option<u32>,
    /// Whether the set was performed with bodyweight only.
    pub is_bodyweight: bool,
}

impl View for SetRow {
    type V = SetRowV;

    open spec fn view(&self) -> SetRowV {
        SetRowV {
            id: self.id,
            session_id: self.session_id,
            set_number: self.set_number,
            reps: self.reps,
            rpe: self.rpe,
            weight: self.weight,
            is_bodyweight: self.is_bodyweight,
        }
    }
}

/// A stored row of the exercises table.
pub struct ExerciseRow {
    /// Unique exercise name.
    pub name: String,
    /// Whether the exercise is weighted.
    pub is_weighted: bool,
    /// Minimum weight in hundredths of a kilogram, for weighted exercises.
    pub min_weight: Option<u32>,
    /// Weight increment in hundredths of a kilogram, for weighted exercises.
    pub increment: Option<u32>,
}

impl View for ExerciseRow {
    type V = ExerciseRowV;

    open spec fn view(&self) -> ExerciseRowV {
        ExerciseRowV {
            name: self.name@,
            is_weighted: self.is_weighted,
            min_weight: self.min_weight,
            increment: self.increment,
        }
    }
}

/// Session row ids are dense: row `k` carries id `k + 1`.
pub open spec fn session_ids_dense(rows: Seq<SessionRowV>) -> bool {
    forall|k: int| 0 <= k < rows.len() ==> (#[trigger] rows[k]).id == k + 1
}

/// Set row ids are dense: row `k` carries id `k + 1`.
pub open spec fn set_ids_dense(rows: Seq<SetRowV>) -> bool {
    forall|k: int| 0 <= k < rows.len() ==> (#[trigger] rows[k]).id == k + 1
}

/// Exercise names are unique across the table.
pub open spec fn exercise_names_unique(rows: Seq<ExerciseRowV>) -> bool {
    forall|k1: int, k2: int|
        0 <= k1 < k2 < rows.len() ==> (#[trigger] rows[k1]).name != (#[trigger] rows[k2]).name
}

/// The database's integrity constraints on its content.
pub open spec fn content_ok(c: DbContent) -> bool {
    &&& session_ids_dense(c.sessions)
    &&& set_ids_dense(c.sets)
    &&& exercise_names_unique(c.exercises)
}

/// The exercise row a metadata value maps to.
pub open spec fn spec_exercise_row(e: ExerciseMetadata) -> ExerciseRowV {
    match e.set_type_config {
        SetTypeConfig::Weighted { min_weight, increment } => ExerciseRowV {
            name: e.name@,
            is_weighted: true,
            min_weight: Some(min_weight),
            increment: Some(increment),
        },
        SetTypeConfig::Bodyweight => ExerciseRowV {
            name: e.name@,
            is_weighted: false,
            min_weight: None,
            increment: None,
        },
    }
}

/// The set row a completed set maps to, given its row id and session.
pub open spec fn spec_set_row(id: i64, session_id: i64, set: CompletedSet) -> SetRowV {
    SetRowV {
        id,
        session_id,
        set_number: set.set_number,
        reps: set.reps,
        rpe: set.rpe,
        weight: match set.set_type {
            SetType::Weighted { weight } => Some(weight),
            SetType::Bodyweight => None,
        },
        is_bodyweight: set.set_type is Bodyweight,
    }
}

/// The in-process database.
pub struct Database {
    initialized: bool,
    sessions: Vec<SessionRow>,
    sets: Vec<SetRow>,
    exercises: Vec<ExerciseRow>,
}

/// Mapping a view over a sequence commutes with appending one element.
proof fn lemma_map_values_push<A, B>(s: Seq<A>, f: spec_fn(A) -> B, x: A)
    ensures
        s.push(x).map_values(f) =~= s.map_values(f).push(f(x)),
{
}

/// Mapping a view over a sequence commutes with removing one element.
proof fn lemma_map_values_remove<A, B>(s: Seq<A>, f: spec_fn(A) -> B, i: int)
    requires
        0 <= i < s.len(),
    ensures
        s.remove(i).map_values(f) =~= s.map_values(f).remove(i),
{
}

/// Mapping a view over a sequence commutes with updating one element.
proof fn lemma_map_values_update<A, B>(s: Seq<A>, f: spec_fn(A) -> B, i: int, x: A)
    requires
        0 <= i < s.len(),
    ensures
        s.update(i, x).map_values(f) =~= s.map_values(f).update(i, f(x)),
{
}

impl Database {
    /// The tables this database currently holds.
    pub closed spec fn content(&self) -> DbContent {
        DbContent {
            sessions: self.sessions@.map_values(|r: SessionRow| r@),
            sets: self.sets@.map_values(|r: SetRow| r@),
            exercises: self.exercises@.map_values(|r: ExerciseRow| r@),
        }
    }

    /// Whether `init` has succeeded.
    pub closed spec fn is_initialized(&self) -> bool {
        self.initialized
    }

    /// Well-formedness: integrity constraints hold and the content is
    /// encodable.
    pub open spec fn inv(&self) -> bool {
        content_ok(self.content()) && wf_content(self.content())
    }

    /// A fresh, uninitialized database with empty tables.
    pub fn new() -> (db: Database)
        ensures
            db.inv(),
            !db.is_initialized(),
            db.content().sessions =~= Seq::<SessionRowV>::empty(),
            db.content().sets =~= Seq::<SetRowV>::empty(),
            db.content().exercises =~= Seq::<ExerciseRowV>::empty(),
    {
        let db = Database {
            initialized: false,
            sessions: Vec::new(),
            sets: Vec::new(),
            exercises: Vec::new(),
        };
        proof {
            assert(db.content().sessions =~= Seq::<SessionRowV>::empty());
            assert(db.content().sets =~= Seq::<SetRowV>::empty());
            assert(db.content().exercises =~= Seq::<ExerciseRowV>::empty());
        }
        db
    }

    /// Inserts a session row with the given start time and returns its id.
    ///
    /// Fails with `NotInitialized` before a successful `init`, and with
    /// `QueryError` when the table has no id left to hand out.
    pub fn create_session(&mut self, exercise_name: &str, now_ms: u64) -> (r: Result<
        i64,
        DatabaseError,
    >)
        requires
            old(self).inv(),
        ensures
            final (self).inv(),
            final (self).is_initialized() == old(self).is_initialized(),
            r is Ok <==> old(self).is_initialized() && old(self).content().sessions.len()
                < MAX_ROW_ID,
            !old(self).is_initialized() ==> r == Err::<i64, DatabaseError>(
                DatabaseError::NotInitialized,
            ) && *final (self) == *old(self),
            old(self).is_initialized() && old(self).content().sessions.len() >= MAX_ROW_ID ==> r
                == Err::<i64, DatabaseError>(DatabaseError::QueryError) && *final (self) == *old(
                self,
            ),
            r matches Ok(id) ==> ({
                &&& id == old(self).content().sessions.len() + 1
                &&& final (self).content().sessions == old(self).content().sessions.push(
                    SessionRowV {
                        id,
                        exercise_name: exercise_name@,
                        started_at: now_ms,
                        completed_at: None,
                    },
                )
                &&& final (self).content().sets == old(self).content().sets
                &&& final (self).content().exercises == old(self).content().exercises
            }),
    {
        if !self.initialized {
            return Err(DatabaseError::NotInitialized);
        }
        if self.sessions.len() as u64 >= MAX_ROW_ID {
            return Err(DatabaseError::QueryError);
        }
        let ghost old_db = *self;
        let name_chars: usize = exercise_name.unicode_len();
        let id = (self.sessions.len() as u64 + 1) as i64;
        let row = SessionRow {
            id,
            exercise_name: exercise_name.to_owned(),
            started_at: now_ms,
            completed_at: None,
        };
        proof {
            lemma_map_values_push(self.sessions@, |r: SessionRow| r@, row);
        }
        self.sessions.push(row);
        proof {
            assert(self.content().sets =~= old_db.content().sets);
            assert(self.content().exercises =~= old_db.content().exercises);
        }
        Ok(id)
    }

    /// Inserts a completed-set row for the given session and returns its id.
    ///
    /// The set's variant is stored as a nullable weight and a bodyweight
    /// flag. Fails with `NotInitialized` before a successful `init`, and
    /// with `QueryError` when the table has no id left to hand out.
    pub fn insert_set(&mut self, session_id: i64, set: &CompletedSet) -> (r: Result<
        i64,
        DatabaseError,
    >)
        requires
            old(self).inv(),
        ensures
            final (self).inv(),
            final (self).is_initialized() == old(self).is_initialized(),
            r is Ok <==> old(self).is_initialized() && old(self).content().sets.len() < MAX_ROW_ID,
            !old(self).is_initialized() ==> r == Err::<i64, DatabaseError>(
                DatabaseError::NotInitialized,
            ) && *final (self) == *old(self),
            old(self).is_initialized() && old(self).content().sets.len() >= MAX_ROW_ID ==> r
                == Err::<i64, DatabaseError>(DatabaseError::QueryError) && *final (self) == *old(
                self,
            ),
            r matches Ok(id) ==> ({
                &&& id == old(self).content().sets.len() + 1
                &&& final (self).content().sets == old(self).content().sets.push(
                    spec_set_row(id, session_id, *set),
                )
                &&& final (self).content().sessions == old(self).content().sessions
                &&& final (self).content().exercises == old(self).content().exercises
            }),
    {
        if !self.initialized {
            return Err(DatabaseError::NotInitialized);
        }
        if self.sets.len() as u64 >= MAX_ROW_ID {
            return Err(DatabaseError::QueryError);
        }
        let ghost old_db = *self;
        let id = (self.sets.len() as u64 + 1) as i64;
        let (weight, is_bodyweight) = match set.set_type {
            SetType::Weighted { weight } => (Some(weight), false),
            SetType::Bodyweight => (None, true),
        };
        let row = SetRow {
            id,
            session_id,
            set_number: set.set_number,
            reps: set.reps,
            rpe: set.rpe,
            weight,
            is_bodyweight,
        };
        proof {
            lemma_map_values_push(self.sets@, |r: SetRow| r@, row);
        }
        self.sets.push(row);
        proof {
            assert(self.content().sessions =~= old_db.content().sessions);
            assert(self.content().exercises =~= old_db.content().exercises);
        }
        Ok(id)
    }

    /// Marks the session with the given id as completed at the given time.
    ///
    /// A session id that matches no row leaves the table unchanged, as an
    /// update statement matching no row would.
    pub fn complete_session(&mut self, session_id: i64, now_ms: u64) -> (r: Result<
        (),
        DatabaseError,
    >)
        requires
            old(self).inv(),
        ensures
            final (self).inv(),
            final (self).is_initialized() == old(self).is_initialized(),
            r is Ok <==> old(self).is_initialized(),
            !old(self).is_initialized() ==> r == Err::<(), DatabaseError>(
                DatabaseError::NotInitialized,
            ) && *final (self) == *old(self),
            r is Ok ==> ({
                &&& final (self).content().sets == old(self).content().sets
                &&& final (self).content().exercises == old(self).content().exercises
                &&& (1 <= session_id <= old(self).content().sessions.len() ==> final (
                self).content().sessions == old(self).content().sessions.update(
                    session_id - 1,
                    SessionRowV {
                        completed_at: Some(now_ms),
                        ..old(self).content().sessions[session_id - 1]
                    },
                ))
                &&& (!(1 <= session_id <= old(self).content().sessions.len()) ==> final (
                self).content().sessions == old(self).content().sessions)
            }),
    {
        if !self.initialized {
            return Err(DatabaseError::NotInitialized);
        }
        if session_id >= 1 && session_id as u64 <= self.sessions.len() as u64 {
            let ghost old_db = *self;
            let idx = (session_id as u64 - 1) as usize;
            let mut row = self.sessions.remove(idx);
            row.completed_at = Some(now_ms);
            let ghost rowg = row;
            self.sessions.insert(idx, row);
            proof {
                assert(self.sessions@ =~= old_db.sessions@.update(idx as int, rowg));
                lemma_map_values_update(old_db.sessions@, |r: SessionRow| r@, idx as int, rowg);
                assert(self.content().sessions =~= old_db.content().sessions.update(
                    session_id - 1,
                    SessionRowV {
                        completed_at: Some(now_ms),
                        ..old_db.content().sessions[session_id - 1]
                    },
                ));
                assert(self.content().sets =~= old_db.content().sets);
                assert(self.content().exercises =~= old_db.content().exercises);
            }
        }
        Ok(())
    }

    /// Stores an exercise's configuration under its name, replacing any
    /// prior row with the same name: the last write wins.
    pub fn save_exercise(&mut self, exercise: &ExerciseMetadata) -> (r: Result<(), DatabaseError>)
        requires
            old(self).inv(),
        ensures
            final (self).inv(),
            final (self).is_initialized() == old(self).is_initialized(),
            r is Ok <==> old(self).is_initialized(),
            !old(self).is_initialized() ==> r == Err::<(), DatabaseError>(
                DatabaseError::NotInitialized,
            ) && *final (self) == *old(self),
            r is Ok ==> ({
                &&& final (self).content().sessions == old(self).content().sessions
                &&& final (self).content().sets == old(self).content().sets
                &&& forall|k: int|
                    0 <= k < old(self).content().exercises.len() && (#[trigger] old(
                    self).content().exercises[k]).name == exercise.name@ ==> final (
                    self).content().exercises == old(self).content().exercises.remove(k).push(
                        spec_exercise_row(*exercise),
                    )
                &&& (forall|k: int|
                    0 <= k < old(self).content().exercises.len() ==> (#[trigger] old(
                    self).content().exercises[k]).name != exercise.name@) ==> final (
                self).content().exercises == old(self).content().exercises.push(
                    spec_exercise_row(*exercise),
                )
            }),
    {
        if !self.initialized {
            return Err(DatabaseError::NotInitialized);
        }
        let ghost old_db = *self;
        let name_chars: usize = exercise.name.as_str().unicode_len();
        let (is_weighted, min_weight, increment) = match exercise.set_type_config {
            SetTypeConfig::Weighted { min_weight, increment } => (
                true,
                Some(min_weight),
                Some(increment),
            ),
            SetTypeConfig::Bodyweight => (false, None, None),
        };
        let row = ExerciseRow {
            name: exercise.name.as_str().to_owned(),
            is_weighted,
            min_weight,
            increment,
        };
        let mut k: usize = 0;
        let mut found: Option<usize> = None;
        while k < self.exercises.len() && found.is_none()
            invariant
                *self == old_db,
                k <= self.exercises.len(),
                match found {
                    Some(idx) => idx < self.exercises.len()
                        && self.content().exercises[idx as int].name == exercise.name@,
                    None => forall|j: int|
                        0 <= j < k ==> (#[trigger] self.content().exercises[j]).name
                            != exercise.name@,
                },
            decreases self.exercises.len() - k + (if found is None {
                1int
            } else {
                0int
            }),
        {
            if self.exercises[k].name == exercise.name {
                found = Some(k);
            } else {
                k = k + 1;
            }
        }
        match found {
            Some(idx) => {
                let removed = self.exercises.remove(idx);
                proof {
                    lemma_map_values_remove(old_db.exercises@, |r: ExerciseRow| r@, idx as int);
                    assert(self.exercises@.map_values(|r: ExerciseRow| r@) =~= old_db.content(
                    ).exercises.remove(idx as int));
                }
                proof {
                    lemma_map_values_push(self.exercises@, |r: ExerciseRow| r@, row);
                }
                self.exercises.push(row);
                proof {
                    assert(self.content().exercises =~= old_db.content().exercises.remove(
                        idx as int,
                    ).push(spec_exercise_row(*exercise)));
                    assert forall|k2: int|
                        0 <= k2 < old_db.content().exercises.len() && (#[trigger] old_db.content(
                        ).exercises[k2]).name == exercise.name@ implies self.content().exercises
                        == old_db.content().exercises.remove(k2).push(
                        spec_exercise_row(*exercise),
                    ) by {
                        assert(k2 == idx);
                    }
                    assert(self.content().sessions =~= old_db.content().sessions);
                    assert(self.content().sets =~= old_db.content().sets);
                    assert(self.exercises@.len() == self.exercises.len());
                    let oldex = old_db.content().exercises;
                    let newex = self.content().exercises;
                    assert(exercise_names_unique(newex)) by {
                        assert forall|a: int, b: int| 0 <= a < b < newex.len() implies (
                        #[trigger] newex[a]).name != (#[trigger] newex[b]).name by {
                            if b == newex.len() - 1 {
                                let oa = if a < idx as int {
                                    a
                                } else {
                                    a + 1
                                };
                                assert(newex[a] == oldex[oa]);
                                if oa < idx as int {
                                    assert(oldex[oa].name != oldex[idx as int].name);
                                } else {
                                    assert(oldex[idx as int].name != oldex[oa].name);
                                }
                            } else {
                                let oa = if a < idx as int {
                                    a
                                } else {
                                    a + 1
                                };
                                let ob = if b < idx as int {
                                    b
                                } else {
                                    b + 1
                                };
                                assert(newex[a] == oldex[oa]);
                                assert(newex[b] == oldex[ob]);
                            }
                        }
                    }
                }
            },
            None => {
                proof {
                    lemma_map_values_push(self.exercises@, |r: ExerciseRow| r@, row);
                }
                self.exercises.push(row);
                proof {
                    assert(self.content().exercises =~= old_db.content().exercises.push(
                        spec_exercise_row(*exercise),
                    ));
                    assert(self.content().sessions =~= old_db.content().sessions);
                    assert(self.content().sets =~= old_db.content().sets);
                    assert(self.exercises@.len() == self.exercises.len());
                    let oldex = old_db.content().exercises;
                    let newex = self.content().exercises;
                    assert(exercise_names_unique(newex)) by {
                        assert forall|a: int, b: int| 0 <= a < b < newex.len() implies (
                        #[trigger] newex[a]).name != (#[trigger] newex[b]).name by {
                            if b == newex.len() - 1 {
                                assert(newex[a] == oldex[a]);
                                assert(oldex[a].name != exercise.name@);
                            } else {
                                assert(newex[a] == oldex[a]);
                                assert(newex[b] == oldex[b]);
                            }
                        }
                    }
                }
            },
        }
        Ok(())
    }

    /// Serializes the whole database state into its byte image.
    pub fn export(&self) -> (r: Result<Vec<u8>, DatabaseError>)
        requires
            self.inv(),
        ensures
            r is Ok <==> self.is_initialized(),
            !self.is_initialized() ==> r == Err::<Vec<u8>, DatabaseError>(
                DatabaseError::NotInitialized,
            ),
            r matches Ok(bytes) ==> bytes@ == spec_image(self.content()),
    {
        if !self.initialized {
            return Err(DatabaseError::NotInitialized);
        }
        let mut out: Vec<u8> = Vec::new();
        out.push(83);
        out.push(81);
        out.push(76);
        out.push(105);
        out.push(116);
        out.push(101);
        out.push(32);
        out.push(102);
        out.push(111);
        out.push(114);
        out.push(109);
        out.push(97);
        out.push(116);
        out.push(32);
        out.push(51);
        out.push(0);
        proof {
            assert(out@ =~= signature());
        }
        let ghost c = self.content();
        push_u64(&mut out, self.sessions.len() as u64);
        self.push_sessions(&mut out);
        push_u64(&mut out, self.sets.len() as u64);
        self.push_sets(&mut out);
        push_u64(&mut out, self.exercises.len() as u64);
        self.push_exercises(&mut out);
        proof {
            assert(out@ =~= spec_image(c));
        }
        Ok(out)
    }

    /// Appends the encoding of every session row.
    fn push_sessions(&self, out: &mut Vec<u8>)
        ensures
            final (out)@ =~= old(out)@ + enc_sessions(self.content().sessions),
    {
        let ghost base = out@;
        let ghost rows = self.content().sessions;
        let mut k: usize = 0;
        while k < self.sessions.len()
            invariant
                k <= self.sessions.len(),
                rows == self.content().sessions,
                out@ =~= base + enc_sessions(rows.take(k as int)),
            decreases self.sessions.len() - k,
        {
            let row = &self.sessions[k];
            push_i64(out, row.id);
            push_str(out, row.exercise_name.as_str());
            push_u64(out, row.started_at);
            push_opt_u64(out, row.completed_at);
            proof {
                lemma_enc_sessions_snoc(rows.take(k as int), rows[k as int]);
                assert(rows.take(k as int).push(rows[k as int]) =~= rows.take(k + 1 as int));
            }
            k = k + 1;
        }
        proof {
            assert(rows.take(self.sessions.len() as int) =~= rows);
        }
    }

    /// Appends the encoding of every completed-set row.
    fn push_sets(&self, out: &mut Vec<u8>)
        ensures
            final (out)@ =~= old(out)@ + enc_sets(self.content().sets),
    {
        let ghost base = out@;
        let ghost rows = self.content().sets;
        let mut k: usize = 0;
        while k < self.sets.len()
            invariant
                k <= self.sets.len(),
                rows == self.content().sets,
                out@ =~= base + enc_sets(rows.take(k as int)),
            decreases self.sets.len() - k,
        {
            let row = &self.sets[k];
            push_i64(out, row.id);
            push_i64(out, row.session_id);
            push_u32(out, row.set_number);
            push_u32(out, row.reps);
            push_u32(out, row.rpe);
            push_opt_u32(out, row.weight);
            push_bool(out, row.is_bodyweight);
            proof {
                lemma_enc_sets_snoc(rows.take(k as int), rows[k as int]);
                assert(rows.take(k as int).push(rows[k as int]) =~= rows.take(k + 1 as int));
            }
            k = k + 1;
        }
        proof {
            assert(rows.take(self.sets.len() as int) =~= rows);
        }
    }

    /// Appends the encoding of every exercise row.
    fn push_exercises(&self, out: &mut Vec<u8>)
        ensures
            final (out)@ =~= old(out)@ + enc_exercises(self.content().exercises),
    {
        let ghost base = out@;
        let ghost rows = self.content().exercises;
        let mut k: usize = 0;
        while k < self.exercises.len()
            invariant
                k <= self.exercises.len(),
                rows == self.content().exercises,
                out@ =~= base + enc_exercises(rows.take(k as int)),
            decreases self.exercises.len() - k,
        {
            let row = &self.exercises[k];
            push_str(out, row.name.as_str());
            push_bool(out, row.is_weighted);
            push_opt_u32(out, row.min_weight);
            push_opt_u32(out, row.increment);
            proof {
                lemma_enc_exercises_snoc(rows.take(k as int), rows[k as int]);
                assert(rows.take(k as int).push(rows[k as int]) =~= rows.take(k + 1 as int));
            }
            k = k + 1;
        }
        proof {
            assert(rows.take(self.exercises.len() as int) =~= rows);
        }
    }

    /// Loads an existing byte image or creates a new empty database, then
    /// marks the database initialized.
    ///
    /// `None` and an empty buffer both mean "start a new database". Any
    /// other buffer must carry the signature, parse, and satisfy the
    /// integrity constraints; otherwise the database is left unchanged and
    /// `InitializationError` is returned.
    pub fn init(&mut self, file_data: Option<Vec<u8>>) -> (r: Result<(), DatabaseError>)
        requires
            old(self).inv(),
        ensures
            final (self).inv(),
            r is Ok ==> final (self).is_initialized(),
            r is Err ==> r == Err::<(), DatabaseError>(DatabaseError::InitializationError)
                && *final (self) == *old(self),
            match file_data {
                None => r is Ok && final (self).content() == empty_content(),
                Some(bytes) => if bytes@.len() == 0 {
                    r is Ok && final (self).content() == empty_content()
                } else {
                    match parse_image(bytes@) {
                        Some(c) => if content_ok(c) {
                            r is Ok && final (self).content() == c
                        } else {
                            r is Err
                        },
                        None => r is Err,
                    }
                },
            },
    {
        let data = match file_data {
            None => {
                self.reset_to_empty();
                return Ok(());
            },
            Some(bytes) => bytes,
        };
        if data.len() == 0 {
            self.reset_to_empty();
            return Ok(());
        }
        match decode_image(&data) {
            Some((sessions, sets, exercises)) => {
                if check_content(&sessions, &sets, &exercises) {
                    proof {
                        lemma_parse_content_wf(data@, 16);
                    }
                    self.initialized = true;
                    self.sessions = sessions;
                    self.sets = sets;
                    self.exercises = exercises;
                    Ok(())
                } else {
                    Err(DatabaseError::InitializationError)
                }
            },
            None => Err(DatabaseError::InitializationError),
        }
    }

    /// Resets to a freshly created, initialized database with empty tables.
    fn reset_to_empty(&mut self)
        ensures
            final (self).inv(),
            final (self).is_initialized(),
            final (self).content() == empty_content(),
    {
        self.initialized = true;
        self.sessions = Vec::new();
        self.sets = Vec::new();
        self.exercises = Vec::new();
        proof {
            assert(self.content().sessions =~= Seq::<SessionRowV>::empty());
            assert(self.content().sets =~= Seq::<SetRowV>::empty());
            assert(self.content().exercises =~= Seq::<ExerciseRowV>::empty());
        }
    }
}

/// Round trip: the byte image exported from any database that satisfies
/// its invariant parses back to exactly the same content and passes the
/// integrity check, so `init` on a fresh instance restores identical rows
/// — and so identical row counts — in all three tables.
pub proof fn lemma_export_init_round_trip(db: Database)
    requires
        db.inv(),
    ensures
        parse_image(spec_image(db.content())) == Some(db.content()),
        content_ok(db.content()),
{
    lemma_image_round_trip(db.content());
}

impl Default for Database {
    /// Same as `Database::new`: a fresh, uninitialized database.
    fn default() -> (db: Database)
        ensures
            db.inv(),
            !db.is_initialized(),
            db.content() == empty_content(),
    {
        Database::new()
    }
}

/// The content of a freshly created database: three empty tables.
pub open spec fn empty_content() -> DbContent {
    DbContent {
        sessions: Seq::<SessionRowV>::empty(),
        sets: Seq::<SetRowV>::empty(),
        exercises: Seq::<ExerciseRowV>::empty(),
    }
}

/// Reads one session row.
fn read_session(data: &Vec<u8>, i: usize) -> (r: Option<(SessionRow, usize)>)
    ensures
        match r {
            Some((row, j)) => ({
                &&& parse_session(data@, i as int) matches Some((v, jj))
                &&& row@ == v
                &&& j as int == jj
                &&& j <= data.len()
            }),
            None => parse_session(data@, i as int) is None,
        },
{
    let (id, i1) = match read_i64(data, i) {
        Some(p) => p,
        None => {
            return None;
        },
    };
    let (exercise_name, i2) = match read_str(data, i1) {
        Some(p) => p,
        None => {
            return None;
        },
    };
    let (started_at, i3) = match read_u64(data, i2) {
        Some(p) => p,
        None => {
            return None;
        },
    };
    let (completed_at, i4) = match read_opt_u64(data, i3) {
        Some(p) => p,
        None => {
            return None;
        },
    };
    Some((SessionRow { id, exercise_name, started_at, completed_at }, i4))
}

/// Reads one completed-set row.
fn read_set(data: &Vec<u8>, i: usize) -> (r: Option<(SetRow, usize)>)
    ensures
        match r {
            Some((row, j)) => ({
                &&& parse_set(data@, i as int) matches Some((v, jj))
                &&& row@ == v
                &&& j as int == jj
                &&& j <= data.len()
            }),
            None => parse_set(data@, i as int) is None,
        },
{
    let (id, i1) = match read_i64(data, i) {
        Some(p) => p,
        None => {
            return None;
        },
    };
    let (session_id, i2) = match read_i64(data, i1) {
        Some(p) => p,
        None => {
            return None;
        },
    };
    let (set_number, i3) = match read_u32(data, i2) {
        Some(p) => p,
        None => {
            return None;
        },
    };
    let (reps, i4) = match read_u32(data, i3) {
        Some(p) => p,
        None => {
            return None;
        },
    };
    let (rpe, i5) = match read_u32(data, i4) {
        Some(p) => p,
        None => {
            return None;
        },
    };
    let (weight, i6) = match read_opt_u32(data, i5) {
        Some(p) => p,
        None => {
            return None;
        },
    };
    let (is_bodyweight, i7) = match read_bool(data, i6) {
        Some(p) => p,
        None => {
            return None;
        },
    };
    Some((SetRow { id, session_id, set_number, reps, rpe, weight, is_bodyweight }, i7))
}

/// Reads one exercise row.
fn read_exercise(data: &Vec<u8>, i: usize) -> (r: Option<(ExerciseRow, usize)>)
    ensures
        match r {
            Some((row, j)) => ({
                &&& parse_exercise(data@, i as int) matches Some((v, jj))
                &&& row@ == v
                &&& j as int == jj
                &&& j <= data.len()
            }),
            None => parse_exercise(data@, i as int) is None,
        },
{
    let (name, i1) = match read_str(data, i) {
        Some(p) => p,
        None => {
            return None;
        },
    };
    let (is_weighted, i2) = match read_bool(data, i1) {
        Some(p) => p,
        None => {
            return None;
        },
    };
    let (min_weight, i3) = match read_opt_u32(data, i2) {
        Some(p) => p,
        None => {
            return None;
        },
    };
    let (increment, i4) = match read_opt_u32(data, i3) {
        Some(p) => p,
        None => {
            return None;
        },
    };
    Some((ExerciseRow { name, is_weighted, min_weight, increment }, i4))
}

/// Reads exactly `count` session rows.
fn read_sessions(data: &Vec<u8>, i: usize, count: u64) -> (r: Option<(Vec<SessionRow>, usize)>)
    requires
        i <= data.len(),
    ensures
        match r {
            Some((rows, j)) => ({
                &&& parse_sessions(data@, i as int, count as nat) matches Some((vrows, jj))
                &&& rows@.map_values(|x: SessionRow| x@) == vrows
                &&& j as int == jj
                &&& j <= data.len()
            }),
            None => parse_sessions(data@, i as int, count as nat) is None,
        },
{
    let mut rows: Vec<SessionRow> = Vec::new();
    let mut cur: usize = i;
    let mut k: u64 = 0;
    while k < count
        invariant
            k <= count,
            cur <= data.len(),
            parse_sessions(data@, i as int, count as nat) == (match parse_sessions(
                data@,
                cur as int,
                (count - k) as nat,
            ) {
                Some((rest, e)) => Some((rows@.map_values(|x: SessionRow| x@) + rest, e)),
                None => None::<(Seq<SessionRowV>, int)>,
            }),
        decreases count - k,
    {
        let (row, next) = match read_session(data, cur) {
            Some(p) => p,
            None => {
                return None;
            },
        };
        proof {
            let rem = (count - k) as nat;
            let v = row@;
            assert(parse_sessions(data@, cur as int, rem) == (match parse_sessions(
                data@,
                next as int,
                (rem - 1) as nat,
            ) {
                Some((rest2, e)) => Some((seq![v] + rest2, e)),
                None => None::<(Seq<SessionRowV>, int)>,
            }));
            lemma_map_values_push(rows@, |x: SessionRow| x@, row);
            match parse_sessions(data@, next as int, (rem - 1) as nat) {
                Some((rest2, e)) => {
                    assert(rows@.map_values(|x: SessionRow| x@) + (seq![v] + rest2)
                        =~= rows@.push(row).map_values(|x: SessionRow| x@) + rest2);
                },
                None => {},
            }
        }
        rows.push(row);
        cur = next;
        k = k + 1;
    }
    proof {
        assert(parse_sessions(data@, cur as int, 0) == Some(
            (Seq::<SessionRowV>::empty(), cur as int),
        ));
        assert(rows@.map_values(|x: SessionRow| x@) + Seq::<SessionRowV>::empty()
            =~= rows@.map_values(|x: SessionRow| x@));
    }
    Some((rows, cur))
}

/// Reads exactly `count` completed-set rows.
fn read_sets(data: &Vec<u8>, i: usize, count: u64) -> (r: Option<(Vec<SetRow>, usize)>)
    requires
        i <= data.len(),
    ensures
        match r {
            Some((rows, j)) => ({
                &&& parse_sets(data@, i as int, count as nat) matches Some((vrows, jj))
                &&& rows@.map_values(|x: SetRow| x@) == vrows
                &&& j as int == jj
                &&& j <= data.len()
            }),
            None => parse_sets(data@, i as int, count as nat) is None,
        },
{
    let mut rows: Vec<SetRow> = Vec::new();
    let mut cur: usize = i;
    let mut k: u64 = 0;
    while k < count
        invariant
            k <= count,
            cur <= data.len(),
            parse_sets(data@, i as int, count as nat) == (match parse_sets(
                data@,
                cur as int,
                (count - k) as nat,
            ) {
                Some((rest, e)) => Some((rows@.map_values(|x: SetRow| x@) + rest, e)),
                None => None::<(Seq<SetRowV>, int)>,
            }),
        decreases count - k,
    {
        let (row, next) = match read_set(data, cur) {
            Some(p) => p,
            None => {
                return None;
            },
        };
        proof {
            let rem = (count - k) as nat;
            let v = row@;
            assert(parse_sets(data@, cur as int, rem) == (match parse_sets(
                data@,
                next as int,
                (rem - 1) as nat,
            ) {
                Some((rest2, e)) => Some((seq![v] + rest2, e)),
                None => None::<(Seq<SetRowV>, int)>,
            }));
            lemma_map_values_push(rows@, |x: SetRow| x@, row);
            match parse_sets(data@, next as int, (rem - 1) as nat) {
                Some((rest2, e)) => {
                    assert(rows@.map_values(|x: SetRow| x@) + (seq![v] + rest2) =~= rows@.push(
                        row,
                    ).map_values(|x: SetRow| x@) + rest2);
                },
                None => {},
            }
        }
        rows.push(row);
        cur = next;
        k = k + 1;
    }
    proof {
        assert(parse_sets(data@, cur as int, 0) == Some((Seq::<SetRowV>::empty(), cur as int)));
        assert(rows@.map_values(|x: SetRow| x@) + Seq::<SetRowV>::empty() =~= rows@.map_values(
            |x: SetRow| x@,
        ));
    }
    Some((rows, cur))
}

/// Reads exactly `count` exercise rows.
fn read_exercises(data: &Vec<u8>, i: usize, count: u64) -> (r: Option<(Vec<ExerciseRow>, usize)>)
    requires
        i <= data.len(),
    ensures
        match r {
            Some((rows, j)) => ({
                &&& parse_exercises(data@, i as int, count as nat) matches Some((vrows, jj))
                &&& rows@.map_values(|x: ExerciseRow| x@) == vrows
                &&& j as int == jj
                &&& j <= data.len()
            }),
            None => parse_exercises(data@, i as int, count as nat) is None,
        },
{
    let mut rows: Vec<ExerciseRow> = Vec::new();
    let mut cur: usize = i;
    let mut k: u64 = 0;
    while k < count
        invariant
            k <= count,
            cur <= data.len(),
            parse_exercises(data@, i as int, count as nat) == (match parse_exercises(
                data@,
                cur as int,
                (count - k) as nat,
            ) {
                Some((rest, e)) => Some((rows@.map_values(|x: ExerciseRow| x@) + rest, e)),
                None => None::<(Seq<ExerciseRowV>, int)>,
            }),
        decreases count - k,
    {
        let (row, next) = match read_exercise(data, cur) {
            Some(p) => p,
            None => {
                return None;
            },
        };
        proof {
            let rem = (count - k) as nat;
            let v = row@;
            assert(parse_exercises(data@, cur as int, rem) == (match parse_exercises(
                data@,
                next as int,
                (rem - 1) as nat,
            ) {
                Some((rest2, e)) => Some((seq![v] + rest2, e)),
                None => None::<(Seq<ExerciseRowV>, int)>,
            }));
            lemma_map_values_push(rows@, |x: ExerciseRow| x@, row);
            match parse_exercises(data@, next as int, (rem - 1) as nat) {
                Some((rest2, e)) => {
                    assert(rows@.map_values(|x: ExerciseRow| x@) + (seq![v] + rest2) =~= rows@.push(
                        row,
                    ).map_values(|x: ExerciseRow| x@) + rest2);
                },
                None => {},
            }
        }
        rows.push(row);
        cur = next;
        k = k + 1;
    }
    proof {
        assert(parse_exercises(data@, cur as int, 0) == Some(
            (Seq::<ExerciseRowV>::empty(), cur as int),
        ));
        assert(rows@.map_values(|x: ExerciseRow| x@) + Seq::<ExerciseRowV>::empty()
            =~= rows@.map_values(|x: ExerciseRow| x@));
    }
    Some((rows, cur))
}

/// Decodes a whole image: signature, three tables, nothing trailing.
fn decode_image(data: &Vec<u8>) -> (r: Option<(Vec<SessionRow>, Vec<SetRow>, Vec<ExerciseRow>)>)
    ensures
        match r {
            Some(t) => parse_image(data@) == Some(
                DbContent {
                    sessions: t.0@.map_values(|x: SessionRow| x@),
                    sets: t.1@.map_values(|x: SetRow| x@),
                    exercises: t.2@.map_values(|x: ExerciseRow| x@),
                },
            ),
            None => parse_image(data@) is None,
        },
{
    if data.len() < 16 {
        return None;
    }
    let mut k: usize = 0;
    while k < 16
        invariant
            k <= 16,
            data@.len() >= 16,
            forall|j: int| 0 <= j < k ==> data@[j] == signature()[j],
        decreases 16 - k,
    {
        if data[k] != signature_byte(k) {
            proof {
                assert(data@.subrange(0, 16)[k as int] == data@[k as int]);
                assert(data@.subrange(0, 16) != signature());
            }
            return None;
        }
        k = k + 1;
    }
    proof {
        assert(data@.subrange(0, 16) =~= signature());
    }
    let (n1, i1) = match read_u64(data, 16) {
        Some(p) => p,
        None => {
            return None;
        },
    };
    let (sessions, i2) = match read_sessions(data, i1, n1) {
        Some(p) => p,
        None => {
            return None;
        },
    };
    let (n2, i3) = match read_u64(data, i2) {
        Some(p) => p,
        None => {
            return None;
        },
    };
    let (sets, i4) = match read_sets(data, i3, n2) {
        Some(p) => p,
        None => {
            return None;
        },
    };
    let (n3, i5) = match read_u64(data, i4) {
        Some(p) => p,
        None => {
            return None;
        },
    };
    let (exercises, i6) = match read_exercises(data, i5, n3) {
        Some(p) => p,
        None => {
            return None;
        },
    };
    if i6 != data.len() {
        return None;
    }
    Some((sessions, sets, exercises))
}

/// Checks the integrity constraints on freshly decoded tables.
fn check_content(sessions: &Vec<SessionRow>, sets: &Vec<SetRow>, exercises: &Vec<ExerciseRow>) -> (b:
    bool)
    ensures
        b == content_ok(
            DbContent {
                sessions: sessions@.map_values(|x: SessionRow| x@),
                sets: sets@.map_values(|x: SetRow| x@),
                exercises: exercises@.map_values(|x: ExerciseRow| x@),
            },
        ),
{
    let ghost c = DbContent {
        sessions: sessions@.map_values(|x: SessionRow| x@),
        sets: sets@.map_values(|x: SetRow| x@),
        exercises: exercises@.map_values(|x: ExerciseRow| x@),
    };
    let mut k: usize = 0;
    while k < sessions.len()
        invariant
            k <= sessions.len(),
            c.sessions == sessions@.map_values(|x: SessionRow| x@),
            forall|j: int| 0 <= j < k ==> (#[trigger] c.sessions[j]).id == j + 1,
        decreases sessions.len() - k,
    {
        proof {
            assert(c.sessions[k as int] == sessions@[k as int]@);
        }
        if k as u64 >= MAX_ROW_ID {
            proof {
                assert(c.sessions[k as int].id <= MAX_ROW_ID);
            }
            return false;
        }
        if sessions[k].id != (k as u64 + 1) as i64 {
            return false;
        }
        k = k + 1;
    }
    let mut k: usize = 0;
    while k < sets.len()
        invariant
            k <= sets.len(),
            c.sets == sets@.map_values(|x: SetRow| x@),
            forall|j: int| 0 <= j < k ==> (#[trigger] c.sets[j]).id == j + 1,
        decreases sets.len() - k,
    {
        proof {
            assert(c.sets[k as int] == sets@[k as int]@);
        }
        if k as u64 >= MAX_ROW_ID {
            proof {
                assert(c.sets[k as int].id <= MAX_ROW_ID);
            }
            return false;
        }
        if sets[k].id != (k as u64 + 1) as i64 {
            return false;
        }
        k = k + 1;
    }
    let mut a: usize = 0;
    while a < exercises.len()
        invariant
            a <= exercises.len(),
            c.exercises == exercises@.map_values(|x: ExerciseRow| x@),
            forall|x: int, y: int|
                0 <= x < a && x < y < c.exercises.len() ==> (#[trigger] c.exercises[x]).name != (
                #[trigger] c.exercises[y]).name,
        decreases exercises.len() - a,
    {
        let mut b: usize = a + 1;
        while b < exercises.len()
            invariant
                a < b || b == a + 1,
                a < exercises.len(),
                b <= exercises.len(),
                c.exercises == exercises@.map_values(|x: ExerciseRow| x@),
                forall|y: int|
                    a < y < b ==> (#[trigger] c.exercises[y]).name != c.exercises[a as int].name,
            decreases exercises.len() - b,
        {
            if exercises[a].name == exercises[b].name {
                proof {
                    assert(c.exercises[a as int] == exercises@[a as int]@);
                    assert(c.exercises[b as int] == exercises@[b as int]@);
                }
                return false;
            }
            b = b + 1;
        }
        a = a + 1;
    }
    true
}

/// Appending one session row extends the table encoding by that row's bytes.
proof fn lemma_enc_sessions_snoc(rows: Seq<SessionRowV>, r: SessionRowV)
    ensures
        enc_sessions(rows.push(r)) =~= enc_sessions(rows) + enc_session(r),
    decreases rows.len(),
{
    if rows.len() == 0 {
        assert(rows.push(r)[0] == r);
        assert(rows.push(r).drop_first() =~= Seq::<SessionRowV>::empty());
        assert(enc_sessions(rows.push(r)) == enc_session(r) + enc_sessions(
            Seq::<SessionRowV>::empty(),
        ));
        assert(enc_sessions(rows) == Seq::<u8>::empty());
    } else {
        assert(rows.push(r)[0] == rows[0]);
        assert(rows.push(r).drop_first() =~= rows.drop_first().push(r));
        assert(enc_sessions(rows.push(r)) == enc_session(rows[0]) + enc_sessions(
            rows.drop_first().push(r),
        ));
        lemma_enc_sessions_snoc(rows.drop_first(), r);
        assert(enc_sessions(rows) == enc_session(rows[0]) + enc_sessions(rows.drop_first()));
    }
}

/// Appending one set row extends the table encoding by that row's bytes.
proof fn lemma_enc_sets_snoc(rows: Seq<SetRowV>, r: SetRowV)
    ensures
        enc_sets(rows.push(r)) =~= enc_sets(rows) + enc_set(r),
    decreases rows.len(),
{
    if rows.len() == 0 {
        assert(rows.push(r)[0] == r);
        assert(rows.push(r).drop_first() =~= Seq::<SetRowV>::empty());
        assert(enc_sets(rows.push(r)) == enc_set(r) + enc_sets(Seq::<SetRowV>::empty()));
        assert(enc_sets(rows) == Seq::<u8>::empty());
    } else {
        assert(rows.push(r)[0] == rows[0]);
        assert(rows.push(r).drop_first() =~= rows.drop_first().push(r));
        assert(enc_sets(rows.push(r)) == enc_set(rows[0]) + enc_sets(rows.drop_first().push(r)));
        lemma_enc_sets_snoc(rows.drop_first(), r);
        assert(enc_sets(rows) == enc_set(rows[0]) + enc_sets(rows.drop_first()));
    }
}

/// Appending one exercise row extends the table encoding by that row's bytes.
proof fn lemma_enc_exercises_snoc(rows: Seq<ExerciseRowV>, r: ExerciseRowV)
    ensures
        enc_exercises(rows.push(r)) =~= enc_exercises(rows) + enc_exercise(r),
    decreases rows.len(),
{
    if rows.len() == 0 {
        assert(rows.push(r)[0] == r);
        assert(rows.push(r).drop_first() =~= Seq::<ExerciseRowV>::empty());
        assert(enc_exercises(rows.push(r)) == enc_exercise(r) + enc_exercises(
            Seq::<ExerciseRowV>::empty(),
        ));
        assert(enc_exercises(rows) == Seq::<u8>::empty());
    } else {
        assert(rows.push(r)[0] == rows[0]);
        assert(rows.push(r).drop_first() =~= rows.drop_first().push(r));
        assert(enc_exercises(rows.push(r)) == enc_exercise(rows[0]) + enc_exercises(
            rows.drop_first().push(r),
        ));
        lemma_enc_exercises_snoc(rows.drop_first(), r);
        assert(enc_exercises(rows) == enc_exercise(rows[0]) + enc_exercises(rows.drop_first()));
    }
}

} // verus!
