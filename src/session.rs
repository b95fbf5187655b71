//! A debug session: the cell that holds the current record between a parse and
//! the transforms that follow it.
//!
//! Every operation takes the session by `&mut`, so the read, the stage call and
//! the write of one operation form a single exclusive step: operations on one
//! session are serialized by construction.
use crate::debug::RecordResponse;
use crate::error::AppError;
use crate::record::{Field, Record};
use crate::render::{describes_all, render, rendered, to_fields, Encoding};
use vstd::prelude::*;

verus! {

/// The session state after a parse stage gave `outcome`: the new record on
/// success, the previous state on failure.
pub open spec fn after_parse(state: Option<Seq<Field>>, outcome: Result<Record, String>) -> Option<Seq<Field>> {
    match outcome {
        Ok(r) => Some(r.fields@),
        Err(_) => state,
    }
}

/// The session state after a transform stage gave `outcome`: the new record on
/// success, the previous state on failure.
pub open spec fn after_transform(state: Option<Seq<Field>>, outcome: Result<Record, String>) -> Option<Seq<Field>> {
    match outcome {
        Ok(r) => Some(r.fields@),
        Err(_) => state,
    }
}

/// `resp` renders the record with fields `fs`: its field list and its JSON
/// text both describe that one record.
pub open spec fn renders(resp: RecordResponse, fs: Seq<Field>) -> bool {
    &&& describes_all(resp.fields@, fs)
    &&& resp.format_json@ == rendered(fs, Encoding::Json)
}

/// What a caller gets back for a stage outcome: the rendering of the new
/// record, or the stage's detail under the error kind `fail`.
pub open spec fn answers(
    r: Result<RecordResponse, AppError>,
    outcome: Result<Record, String>,
    fail: spec_fn(String) -> AppError,
) -> bool {
    match outcome {
        Ok(rec) => r is Ok && renders(r->Ok_0, rec.fields@),
        Err(d) => r == Err::<RecordResponse, AppError>(fail(d)),
    }
}

/// The parse failure that carries detail `d`.
pub open spec fn parse_failed(d: String) -> AppError {
    AppError::ParseFailed(d)
}

/// The transform failure that carries detail `d`.
pub open spec fn transform_failed(d: String) -> AppError {
    AppError::TransformFailed(d)
}

/// The session state after transform outcomes were applied one at a time, in
/// the order of `outcomes`.
pub open spec fn run_transforms(state: Option<Seq<Field>>, outcomes: Seq<Result<Record, String>>) -> Option<Seq<Field>>
    decreases outcomes.len(),
{
    if outcomes.len() == 0 {
        state
    } else {
        after_transform(run_transforms(state, outcomes.drop_last()), outcomes.last())
    }
}

/// A session holds a record after any successful parse, whatever it held
/// before, so a transform there reaches its engine; a fresh session that saw
/// only failed parses still holds none, so a transform there is refused.
pub proof fn lemma_parse_enables_transform(state: Option<Seq<Field>>, rec: Record, d: String)
    ensures
        after_parse(state, Ok(rec)) == Some(rec.fields@),
        after_parse(None, Err(d)) is None,
{
}

/// A failed stage leaves the session as it was, be it empty or holding a record.
pub proof fn lemma_failure_keeps_state(state: Option<Seq<Field>>, d: String)
    ensures
        after_parse(state, Err(d)) == state,
        after_transform(state, Err(d)) == state,
{
}

/// Transforms applied one at a time never merge records: afterwards the session
/// holds the record of the last successful transform, or, if none succeeded,
/// what it held before.
pub proof fn lemma_serial_transforms(state: Option<Seq<Field>>, outcomes: Seq<Result<Record, String>>)
    ensures
        (forall|i: int| 0 <= i < outcomes.len() ==> (#[trigger] outcomes[i]) is Err)
            ==> run_transforms(state, outcomes) == state,
        forall|i: int| 0 <= i < outcomes.len() && (#[trigger] outcomes[i]) is Ok
            && (forall|j: int| i < j < outcomes.len() ==> (#[trigger] outcomes[j]) is Err)
            ==> run_transforms(state, outcomes) == Some(outcomes[i]->Ok_0.fields@),
    decreases outcomes.len(),
{
    if outcomes.len() > 0 {
        let init = outcomes.drop_last();
        lemma_serial_transforms(state, init);
        assert forall|i: int| 0 <= i < init.len() implies #[trigger] init[i] == outcomes[i] by {}
        if outcomes.last() is Err {
            assert forall|i: int| 0 <= i < outcomes.len() && (#[trigger] outcomes[i]) is Ok
                && (forall|j: int| i < j < outcomes.len() ==> (#[trigger] outcomes[j]) is Err)
                implies run_transforms(state, outcomes) == Some(outcomes[i]->Ok_0.fields@) by {
                assert(i < outcomes.len() - 1);
                assert(init[i] == outcomes[i]);
                assert forall|j: int| i < j < init.len() implies (#[trigger] init[j]) is Err by {
                    assert(init[j] == outcomes[j]);
                }
            }
        }
    }
}

/// Builds the response for a record.
pub fn respond(rec: &Record) -> (resp: RecordResponse)
    ensures
        renders(resp, rec.fields@),
{
    RecordResponse { fields: to_fields(rec), format_json: render(rec, Encoding::Json) }
}

/// The per-session cell: absent until a parse succeeds, then the latest record.
pub struct Session {
    current: Option<Record>,
}

impl Session {
    /// The fields of the current record, or `None` before any successful parse.
    pub closed spec fn model(&self) -> Option<Seq<Field>> {
        match self.current {
            Some(r) => Some(r.fields@),
            None => None,
        }
    }

    /// A fresh session, which holds no record.
    pub fn new() -> (s: Session)
        ensures
            s.model() == None::<Seq<Field>>,
    {
        Session { current: None }
    }

    /// Whether a parse has succeeded in this session.
    pub fn has_record(&self) -> (b: bool)
        ensures
            b == (self.model() is Some),
    {
        self.current.is_some()
    }

    /// An independent snapshot of the current record, if there is one.
    pub fn get_current(&self) -> (r: Option<Record>)
        ensures
            match r {
                Some(rec) => self.model() == Some(rec.fields@),
                None => self.model() == None::<Seq<Field>>,
            },
    {
        match &self.current {
            Some(rec) => Some(rec.duplicate()),
            None => None,
        }
    }

    /// Installs `new` as the current record, discarding the previous one.
    pub fn replace(&mut self, new: Record)
        ensures
            final(self).model() == Some(new.fields@),
    {
        self.current = Some(new);
    }

    /// Applies the outcome of a parse stage: a record is installed and rendered;
    /// a failure leaves the session as it was and is reported as a parse failure.
    pub fn apply_parse(&mut self, outcome: Result<Record, String>) -> (r: Result<RecordResponse, AppError>)
        ensures
            final(self).model() == after_parse(old(self).model(), outcome),
            answers(r, outcome, |d: String| parse_failed(d)),
    {
        match outcome {
            Ok(rec) => {
                let resp = respond(&rec);
                self.replace(rec);
                Ok(resp)
            },
            Err(d) => Err(AppError::ParseFailed(d)),
        }
    }

    /// Applies the outcome of a transform stage run on the current record: a
    /// record is installed and rendered; a failure leaves the current record in
    /// place and is reported as a transform failure.
    pub fn apply_transform(&mut self, outcome: Result<Record, String>) -> (r: Result<RecordResponse, AppError>)
        requires
            old(self).model() is Some,
        ensures
            final(self).model() == after_transform(old(self).model(), outcome),
            answers(r, outcome, |d: String| transform_failed(d)),
    {
        match outcome {
            Ok(rec) => {
                let resp = respond(&rec);
                self.replace(rec);
                Ok(resp)
            },
            Err(d) => Err(AppError::TransformFailed(d)),
        }
    }

    /// Runs the parse stage `engine` on `rules` and `logs` and applies its
    /// outcome, whatever the engine returns.
    pub fn submit_parse<F: FnOnce(&str, &str) -> Result<Record, String>>(
        &mut self,
        rules: &str,
        logs: &str,
        engine: F,
    ) -> (r: Result<RecordResponse, AppError>)
        requires
            engine.requires((rules, logs)),
        ensures
            exists|outcome: Result<Record, String>|
                #[trigger] engine.ensures((rules, logs), outcome)
                && final(self).model() == after_parse(old(self).model(), outcome)
                && answers(r, outcome, |d: String| parse_failed(d)),
    {
        let outcome = engine(rules, logs);
        self.apply_parse(outcome)
    }

    /// Runs the transform stage `engine` with `oml` on a snapshot of the current
    /// record and applies its outcome. Without a current record the engine is not
    /// called and the result is `NoParseResult`, with the session unchanged.
    pub fn submit_transform<F: FnOnce(&str, Record) -> Result<Record, String>>(
        &mut self,
        oml: &str,
        engine: F,
    ) -> (r: Result<RecordResponse, AppError>)
        requires
            forall|rec: Record| #[trigger] engine.requires((oml, rec)),
        ensures
            old(self).model() is None ==> r == Err::<RecordResponse, AppError>(AppError::NoParseResult)
                && final(self).model() == old(self).model(),
            old(self).model() is Some ==> exists|input: Record, outcome: Result<Record, String>|
                #[trigger] engine.ensures((oml, input), outcome)
                && old(self).model() == Some(input.fields@)
                && final(self).model() == after_transform(old(self).model(), outcome)
                && answers(r, outcome, |d: String| transform_failed(d)),
    {
        match self.get_current() {
            None => Err(AppError::NoParseResult),
            Some(input) => {
                let ghost seen = input;
                let outcome = engine(oml, input);
                let r = self.apply_transform(outcome);
                assert(engine.ensures((oml, seen), outcome));
                r
            },
        }
    }
}

} // verus!
