//! The per-source ingestion unit: validate the source's media type, fix the
//! generated id and the storage paths, persist the original, derive the
//! thumbnail, and report the stored filename — or fail without touching the
//! other units of the batch.

use vstd::prelude::*;
use vstd::string::*;
use crate::ids::{generate_filename, id_chars, lemma_id_chars_plain};
use crate::media::{get_image_ext_from_response, opt_view, response_ext_spec, ValidationError};
use crate::paths::{
    file_ext_of,
    filename_with_ext,
    lemma_filename_ext_round_trip,
    path_in_dir,
    preview_path,
};
use crate::thumb::TransformError;

verus! {

/// Why one unit failed. Every variant is per-source and never aborts the
/// sibling units of a batch.
#[derive(Clone, Debug, PartialEq, Eq, Structural)]
pub enum UnitError {
    /// The declared or observed media type was wrong or missing.
    Validation(ValidationError),
    /// The network fetch of a remote source failed.
    Transport,
    /// Writing the original to storage failed.
    Io,
    /// The payload did not decode, or the preview could not be derived.
    Transform(TransformError),
}

/// No `'.'` or `'/'` anywhere in `s`.
pub open spec fn plain_chars(s: Seq<char>) -> bool {
    forall|k: int| 0 <= k < s.len() ==> s[k] != '.' && s[k] != '/'
}

/// Everything a unit fixes once its source is accepted: the generated id,
/// the storage extension, and the three derived names.
#[derive(Debug)]
pub struct UnitPlan {
    /// The generated `{random}_{millis}` identifier.
    pub id: String,
    /// The storage extension the validator chose.
    pub ext: String,
    /// `{id}.{ext}`: the externally reported filename.
    pub filename_ext: String,
    /// `{dir}/{id}.{ext}`: where the original is stored.
    pub original_path: String,
    /// `{dir}/preview_{id}.jpg`: where the thumbnail is stored.
    pub thumbnail_path: String,
}

impl UnitPlan {
    /// The derived names are exactly the stated compositions of the id and
    /// the extension under the storage directory, and id and extension are
    /// free of separators.
    pub open spec fn wf(self, dir: Seq<char>) -> bool {
        &&& plain_chars(self.id@)
        &&& (forall|k: int| 0 <= k < self.ext@.len() ==> self.ext@[k] != '.')
        &&& self.filename_ext@ == self.id@ + "."@ + self.ext@
        &&& self.original_path@ == dir + "/"@ + self.filename_ext@
        &&& self.thumbnail_path@ == dir + "/preview_"@ + self.id@ + ".jpg"@
    }
}

/// Builds the plan for an accepted source: draws a fresh id and derives the
/// stored filename and both storage paths from it.
pub fn make_plan(dir: &str, ext: String) -> (p: UnitPlan)
    requires
        forall|k: int| 0 <= k < ext@.len() ==> ext@[k] != '.',
    ensures
        p.wf(dir@),
        p.ext == ext,
        exists|r: nat, m: nat| r < 0x1_0000_0000 && p.id@ =~= #[trigger] id_chars(r, m),
{
    let id = generate_filename();
    proof {
        let (r, m): (nat, nat) = choose|r: nat, m: nat|
            r < 0x1_0000_0000 && id@ =~= #[trigger] id_chars(r, m);
        lemma_id_chars_plain(r, m);
        assert(plain_chars(id@));
    }
    let filename_ext = filename_with_ext(id.as_str(), ext.as_str());
    let original_path = path_in_dir(dir, filename_ext.as_str());
    let thumbnail_path = preview_path(dir, id.as_str());
    UnitPlan { id, ext, filename_ext, original_path, thumbnail_path }
}

/// The stored filename of a well-formed plan carries its extension: taking
/// the text after the last dot of `{id}.{ext}` gives `ext` back.
pub proof fn lemma_plan_filename_ext(p: UnitPlan, dir: Seq<char>)
    requires
        p.wf(dir),
    ensures
        file_ext_of(p.filename_ext@) =~= p.ext@,
{
    lemma_filename_ext_round_trip(p.id@, p.ext@);
}

/// A successful remote unit's reported filename ends in exactly the
/// extension that the validator's mapping chose for the response's subtype:
/// what stands after the last dot of `{id}.{ext}` is `ext_for_subtype` of
/// the subtype.
pub proof fn lemma_remote_filename_extension(p: UnitPlan, dir: Seq<char>, sub: Seq<char>)
    requires
        p.wf(dir),
        p.ext@ == crate::media::ext_for_subtype(sub),
    ensures
        file_ext_of(p.filename_ext@) =~= crate::media::ext_for_subtype(sub),
{
    lemma_plan_filename_ext(p, dir);
}

/// Begins a unit for an accepted source: validates its declared or
/// observed media type — before any bytes would be read or written — and
/// maps the subtype to the storage extension, exactly as the validator
/// says.
fn begin_unit(dir: &str, content_type: Option<&str>) -> (r: Result<UnitPlan, ValidationError>)
    ensures
        r matches Err(e) ==> response_ext_spec(opt_view(content_type)) == Err::<
            Seq<char>,
            ValidationError,
        >(e),
        r matches Ok(plan) ==> (response_ext_spec(opt_view(content_type)) == Ok::<
            Seq<char>,
            ValidationError,
        >(plan.ext@) && plan.wf(dir@)),
{
    let ext = match get_image_ext_from_response(content_type) {
        Ok(e) => e,
        Err(er) => {
            return Err(er);
        },
    };
    proof {
        crate::media::lemma_ext_plain_of_response(opt_view(content_type), ext@);
    }
    Ok(make_plan(dir, ext))
}

/// Begins a unit for a local multipart field, from the field's declared
/// media type. Both source kinds converge on the same validator: the
/// stored extension is one of the four fixed names the subtype maps to,
/// never a copy of the uploaded file's own suffix.
pub fn local_unit_begin(dir: &str, content_type: Option<&str>) -> (r: Result<
    UnitPlan,
    ValidationError,
>)
    ensures
        r matches Err(e) ==> response_ext_spec(opt_view(content_type)) == Err::<
            Seq<char>,
            ValidationError,
        >(e),
        r matches Ok(plan) ==> (response_ext_spec(opt_view(content_type)) == Ok::<
            Seq<char>,
            ValidationError,
        >(plan.ext@) && plan.wf(dir@)),
{
    begin_unit(dir, content_type)
}

/// Begins a unit for a fetched remote source, from the response's
/// `content-type` header: the header is validated before any body bytes
/// are read, and its subtype chooses the storage extension.
pub fn remote_unit_begin(dir: &str, content_type: Option<&str>) -> (r: Result<
    UnitPlan,
    ValidationError,
>)
    ensures
        r matches Err(e) ==> response_ext_spec(opt_view(content_type)) == Err::<
            Seq<char>,
            ValidationError,
        >(e),
        r matches Ok(plan) ==> (response_ext_spec(opt_view(content_type)) == Ok::<
            Seq<char>,
            ValidationError,
        >(plan.ext@) && plan.wf(dir@)),
{
    begin_unit(dir, content_type)
}

/// The per-unit lifecycle: strictly forward from `Start` through
/// `Validating`, `Persisting` and `Thumbnailing` to `Done` with the stored
/// filename, or to `Failed`; both terminal, with no retries.
pub enum UnitState {
    Start,
    Validating,
    Persisting(UnitPlan),
    Thumbnailing(UnitPlan),
    Done(String),
    Failed(UnitError),
}

/// What the outside work reports back into a unit.
pub enum UnitEvent {
    /// The coordinator admitted the source.
    Begin,
    /// Validation finished: the unit's plan, or the terminal failure.
    Validated(Result<UnitPlan, UnitError>),
    /// The original's write finished; `None` means success.
    Persisted(Option<UnitError>),
    /// The thumbnail derivation finished; `None` means success.
    Thumbnailed(Option<UnitError>),
}

/// How far along its lifecycle a unit stands.
pub open spec fn state_rank(s: UnitState) -> nat {
    match s {
        UnitState::Start => 0,
        UnitState::Validating => 1,
        UnitState::Persisting(_) => 2,
        UnitState::Thumbnailing(_) => 3,
        UnitState::Done(_) => 4,
        UnitState::Failed(_) => 4,
    }
}

/// `Done` and `Failed` end a unit.
pub open spec fn is_terminal(s: UnitState) -> bool {
    state_rank(s) == 4
}

/// The transition table: each state accepts exactly the event of its phase
/// and moves forward on it; an event that does not belong to the state
/// changes nothing, and a terminal state absorbs everything.
pub open spec fn unit_step_spec(s: UnitState, e: UnitEvent) -> UnitState {
    match (s, e) {
        (UnitState::Start, UnitEvent::Begin) => UnitState::Validating,
        (UnitState::Validating, UnitEvent::Validated(res)) => match res {
            Ok(plan) => UnitState::Persisting(plan),
            Err(er) => UnitState::Failed(er),
        },
        (UnitState::Persisting(plan), UnitEvent::Persisted(res)) => match res {
            None => UnitState::Thumbnailing(plan),
            Some(er) => UnitState::Failed(er),
        },
        (UnitState::Thumbnailing(plan), UnitEvent::Thumbnailed(res)) => match res {
            None => UnitState::Done(plan.filename_ext),
            Some(er) => UnitState::Failed(er),
        },
        (s0, _) => s0,
    }
}

/// Advances one unit by one event, exactly as the transition table says.
pub fn unit_step(s: UnitState, e: UnitEvent) -> (r: UnitState)
    ensures
        r == unit_step_spec(s, e),
{
    match (s, e) {
        (UnitState::Start, UnitEvent::Begin) => UnitState::Validating,
        (UnitState::Validating, UnitEvent::Validated(res)) => match res {
            Ok(plan) => UnitState::Persisting(plan),
            Err(er) => UnitState::Failed(er),
        },
        (UnitState::Persisting(plan), UnitEvent::Persisted(res)) => match res {
            None => UnitState::Thumbnailing(plan),
            Some(er) => UnitState::Failed(er),
        },
        (UnitState::Thumbnailing(plan), UnitEvent::Thumbnailed(res)) => match res {
            None => UnitState::Done(plan.filename_ext),
            Some(er) => UnitState::Failed(er),
        },
        (s0, _) => s0,
    }
}

/// Transitions are strictly forward: no step lowers the rank, a step that
/// changes the state raises it, and a terminal state — failure included —
/// never changes. A unit is never retried.
pub proof fn lemma_unit_forward(s: UnitState, e: UnitEvent)
    ensures
        state_rank(unit_step_spec(s, e)) >= state_rank(s),
        is_terminal(s) ==> unit_step_spec(s, e) == s,
{
}

/// A unit whose validation fails is terminal at once: it never reaches
/// `Persisting`, so it never holds a storage plan and no bytes of it are
/// ever written.
pub proof fn lemma_validation_failure_is_immediate(e: UnitError)
    ensures
        unit_step_spec(UnitState::Validating, UnitEvent::Validated(Err(e))) == UnitState::Failed(
            e,
        ),
        is_terminal(unit_step_spec(UnitState::Validating, UnitEvent::Validated(Err(e)))),
{
}

} // verus!

