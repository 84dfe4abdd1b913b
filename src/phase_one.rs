//! Decisions of the identification phase and of the step that hands its
//! result to the detail phase.

use vstd::prelude::*;

use crate::registry::NeighborhoodDatabase;
use crate::session::{capped_u32, progress_chunk, resolve_all, resolve_targets, Resolution};
use crate::text::{chars_of, ends_with, slice_chars, starts_with, string_of, trim, trimmed};
use crate::types::{SimulationChunk, SimulationRequest, SimulationUpdate};

verus! {

/// Why a simulation ended before any record was produced.
#[derive(Clone, Copy, Debug, PartialEq, Eq, Structural)]
pub enum SimulationError {
    /// The credential for the generation service is not configured.
    MissingCredential,
    /// The request could not be sent or its answer not received.
    RequestFailed,
    /// The service answered with a status outside `200..=299`.
    UpstreamStatus { status: u16 },
    /// The service answered with an error object.
    UpstreamError,
    /// The answer lacked the expected content or did not decode.
    MalformedResponse,
    /// The identification phase named no neighborhood.
    NoTargets,
    /// None of the named neighborhoods is known.
    NoEntitiesFound,
}

/// Above this many names the identification result is reported as too
/// large; it is still used.
pub const SOFT_CAP: usize = 18;

/// Accepts a success status and turns any other into an error.
pub fn check_status(status: u16) -> (r: Result<(), SimulationError>)
    ensures
        200 <= status <= 299 <==> r is Ok,
        !(200 <= status <= 299) ==> r == Err::<(), SimulationError>(
            SimulationError::UpstreamStatus { status },
        ),
{
    if 200 <= status && status <= 299 {
        Ok(())
    } else {
        Err(SimulationError::UpstreamStatus { status })
    }
}

/// Whether `s` begins with `p`.
pub open spec fn begins(s: Seq<char>, p: Seq<char>) -> bool {
    p.len() <= s.len() && s.take(p.len() as int) == p
}

/// `s` without every repetition of `p` at its end.
pub open spec fn strip_suffixes(s: Seq<char>, p: Seq<char>) -> Seq<char>
    decreases s.len(),
{
    if 0 < p.len() <= s.len() && s.subrange(s.len() - p.len(), s.len() as int) == p {
        strip_suffixes(s.subrange(0, s.len() - p.len()), p)
    } else {
        s
    }
}

/// The content of an answer without white space and without a fenced code
/// block around it.
pub open spec fn unfenced(content: Seq<char>) -> Seq<char> {
    let t = trim(content);
    let u = if begins(t, "```json"@) {
        t.subrange("```json"@.len() as int, t.len() as int)
    } else if begins(t, "```"@) {
        t.subrange("```"@.len() as int, t.len() as int)
    } else {
        t
    };
    trim(strip_suffixes(u, "```"@))
}

/// Removes white space and the fence of a code block around `content`.
pub fn strip_code_fence(content: &str) -> (r: String)
    ensures
        r@ == unfenced(content@),
{
    let t = trimmed(&chars_of(content));
    let json_fence = chars_of("```json");
    let fence = chars_of("```");
    let u = if starts_with(&t, &json_fence) {
        slice_chars(&t, json_fence.len(), t.len())
    } else if starts_with(&t, &fence) {
        slice_chars(&t, fence.len(), t.len())
    } else {
        t
    };
    proof {
        reveal_strlit("```");
    }
    let mut end: usize = u.len();
    let mut rest = u.clone();
    assert(rest@ == u@.subrange(0, end as int));
    while ends_with(&rest, &fence)
        invariant
            end <= u@.len(),
            fence@ == "```"@,
            fence@.len() == 3,
            rest@ == u@.subrange(0, end as int),
            strip_suffixes(u@, fence@) == strip_suffixes(rest@, fence@),
        decreases end,
    {
        let ghost old_rest = rest@;
        end = end - fence.len();
        rest = slice_chars(&u, 0, end);
        assert(rest@ =~= old_rest.subrange(0, old_rest.len() - 3));
    }
    string_of(&trimmed(&rest))
}

/// What the answer of the identification phase holds, as far as the
/// decisions on it need.
pub struct Phase1Envelope {
    /// Whether the answer carries an error object.
    pub has_error: bool,
    /// How many choices the answer lists.
    pub choice_count: usize,
    /// The message content of the first choice, if it has one.
    pub content: Option<String>,
}

/// The content of an identification answer, without its code fence: an error
/// object or a missing choice or content fails.
pub fn phase1_content(envelope: &Phase1Envelope) -> (r: Result<String, SimulationError>)
    ensures
        envelope.has_error ==> r == Err::<String, SimulationError>(SimulationError::UpstreamError),
        !envelope.has_error && (envelope.choice_count == 0 || envelope.content is None) ==> r
            == Err::<String, SimulationError>(SimulationError::MalformedResponse),
        !envelope.has_error && envelope.choice_count > 0 && envelope.content is Some ==> (r matches Ok(
            t,
        ) && t@ == unfenced(envelope.content->0@)),
{
    if envelope.has_error {
        return Err(SimulationError::UpstreamError);
    }
    if envelope.choice_count == 0 {
        return Err(SimulationError::MalformedResponse);
    }
    match &envelope.content {
        Some(c) => Ok(strip_code_fence(c.as_str())),
        None => Err(SimulationError::MalformedResponse),
    }
}

/// Whether `count` names exceed what the identification phase asks for.
pub fn exceeds_soft_cap(count: usize) -> (r: bool)
    ensures
        r == (count > SOFT_CAP),
{
    count > SOFT_CAP
}

/// Accepts the names that the identification phase returned, if there is at
/// least one.
pub fn validate_target_names(names: Vec<String>) -> (r: Result<Vec<String>, SimulationError>)
    ensures
        names@.len() == 0 ==> r == Err::<Vec<String>, SimulationError>(SimulationError::NoTargets),
        names@.len() > 0 ==> (r matches Ok(v) && v@ == names@),
{
    if names.len() == 0 {
        Err(SimulationError::NoTargets)
    } else {
        Ok(names)
    }
}

/// What the detail phase works with: the resolved neighborhoods, and the
/// progress record to send before it streams.
pub struct DetailPlan {
    pub resolution: Resolution,
    pub progress: SimulationChunk,
}

/// Resolves the names of the identification phase against the request's own
/// records, then the registry; fails where no name was given or none
/// resolves.
pub fn plan_detail_phase(
    target_names: &[String],
    request: &SimulationRequest,
    db: &NeighborhoodDatabase,
) -> (r: Result<DetailPlan, SimulationError>)
    ensures
        target_names@.len() == 0 ==> r == Err::<DetailPlan, SimulationError>(SimulationError::NoTargets),
        target_names@.len() > 0 && resolve_all(target_names@, request.neighborhood_properties@, db@).len() == 0
            ==> r == Err::<DetailPlan, SimulationError>(SimulationError::NoEntitiesFound),
        r is Ok <==> resolve_all(target_names@, request.neighborhood_properties@, db@).len() > 0,
        r matches Ok(plan) ==> {
            let resolved = resolve_all(target_names@, request.neighborhood_properties@, db@);
            &&& plan.resolution.entities@.len() == resolved.len()
            &&& forall|k: int|
                0 <= k < resolved.len() ==> (#[trigger] plan.resolution.entities@[k]).same_as(
                    resolved[k],
                )
            &&& plan.progress == (SimulationChunk::Update {
                data: SimulationUpdate {
                    expected_event_count: capped_u32(resolved.len()),
                    target_neighborhood_count: capped_u32(resolved.len()),
                },
            })
        },
{
    if target_names.len() == 0 {
        proof {
            assert(resolve_all(target_names@, request.neighborhood_properties@, db@).len() == 0);
        }
        return Err(SimulationError::NoTargets);
    }
    let resolution = resolve_targets(target_names, request.neighborhood_properties.as_slice(), db);
    if resolution.entities.len() == 0 {
        return Err(SimulationError::NoEntitiesFound);
    }
    let progress = progress_chunk(resolution.entities.len());
    Ok(DetailPlan { resolution, progress })
}

} // verus!
