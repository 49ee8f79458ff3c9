//! Properties that relate several steps of a run.
use vstd::prelude::*;

use crate::digest::{opt_text, outcome_of, sha1_of, UnverifiableReason, VerificationOutcome};
use crate::release::{resolution_spec, MetadataReply};
use crate::run::{Action, Ending, Event, Run, Stage};

verus! {

/// A legacy version starts its run without asking the update service:
/// the first action is never a metadata request.
pub proof fn legacy_run_makes_no_request(run: Run, next: Stage, a: Action)
    requires
        run.stage == Stage::Start,
        run.endpoint.is_legacy(),
        run.transition(Event::Started, next, a),
    ensures
        !(a is RequestMetadata),
        !(next is Resolving),
{
}

/// When the metadata of a channel carries no hash, whatever bytes are then
/// fetched verify as unverifiable for want of a hash, never as verified or
/// mismatched.
pub proof fn missing_hash_is_unverifiable(url: Option<String>, bytes: Seq<u8>)
    requires
        resolution_spec(MetadataReply::Received { url, hash: None }) is Ok,
    ensures
        ({
            let d = resolution_spec(MetadataReply::Received { url, hash: None })->Ok_0;
            outcome_of(sha1_of(bytes), opt_text(d.expected_hash)) == VerificationOutcome::Unverifiable(
                UnverifiableReason::NoHashProvided,
            )
        }),
{
}

/// Verification depends on the bytes and the expected hash alone: equal
/// inputs give equal outcomes.
pub proof fn verification_is_deterministic(
    b1: Seq<u8>,
    h1: Option<Seq<char>>,
    b2: Seq<u8>,
    h2: Option<Seq<char>>,
)
    requires
        b1 == b2,
        h1 == h2,
    ensures
        outcome_of(sha1_of(b1), h1) == outcome_of(sha1_of(b2), h2),
{
}

/// Refusing an artifact that did not verify ends the run, successfully and
/// without a save.
pub proof fn declining_ends_without_saving(run: Run, next: Stage, a: Action)
    requires
        run.stage is Confirming,
        run.transition(Event::Answer(false), next, a),
    ensures
        next == Stage::Finished(Ending::Declined),
        !(a is Save),
        !(Ending::Declined is Failed),
{
}

/// A finished run stays finished whatever is reported to it, and asks for
/// no further work.
pub proof fn finished_run_stays_finished(run: Run, e: Event, next: Stage, a: Action)
    requires
        run.stage is Finished,
        run.transition(e, next, a),
    ensures
        next == run.stage,
        a is Finish,
{
}

} // verus!
