//! An installation run over a record of what the host observed, and what holds
//! of every such run.

use crate::checker::{DescriptorView, UpdateDescriptor};
use crate::installer::{
    capped_sum, failed_from, failure_events, next_state, notice, outcome_in, started,
    DownloadProgress, HostFault, InstallError, InstallEvent, InstallOutcome, InstallState,
    Installer, Notification,
};
use vstd::prelude::*;

verus! {

/// The state that an installation of `update` is in after `events`, one after
/// the other, when it was in `state` before them.
pub open spec fn state_after(
    update: DescriptorView,
    state: InstallState,
    events: Seq<InstallEvent>,
) -> InstallState
    decreases events.len(),
{
    if events.len() == 0 {
        state
    } else {
        state_after(update, next_state(update, state, events[0]), events.drop_first())
    }
}

/// What is reported in the course of `events`, in order, by an installation
/// of `update` that was in `state` before them.
pub open spec fn notices_after(
    update: DescriptorView,
    state: InstallState,
    events: Seq<InstallEvent>,
) -> Seq<Notification>
    decreases events.len(),
{
    if events.len() == 0 {
        Seq::empty()
    } else {
        let rest = notices_after(
            update,
            next_state(update, state, events[0]),
            events.drop_first(),
        );
        match notice(update, state, events[0]) {
            Some(first) => seq![first] + rest,
            None => rest,
        }
    }
}

/// What an installation came to.
#[derive(Clone, Debug, PartialEq, Eq)]
pub struct InstallReport {
    /// The state after the last event.
    pub state: InstallState,
    /// What was reported, in order.
    pub notifications: Vec<Notification>,
}

impl InstallReport {
    /// How the installation ended; `None` if the events ended before it did.
    pub fn outcome(&self) -> (outcome: Option<InstallOutcome>)
        ensures
            outcome == outcome_in(self.state),
    {
        match self.state {
            InstallState::Succeeded => Some(InstallOutcome::Succeeded),
            InstallState::Failed(reason) => Some(InstallOutcome::Failed(reason)),
            _ => None,
        }
    }

    /// The same as a `Result`: `Ok` for success, the reason for a failure.
    pub fn result(&self) -> (result: Option<Result<(), InstallError>>)
        ensures
            result == match self.state {
                InstallState::Succeeded => Some(Ok::<(), InstallError>(())),
                InstallState::Failed(reason) => Some(Err::<(), InstallError>(reason)),
                _ => None,
            },
    {
        match self.state {
            InstallState::Succeeded => Some(Ok(())),
            InstallState::Failed(reason) => Some(Err(reason)),
            _ => None,
        }
    }
}

/// Hands `events` to `installer`, one after the other, and returns what was
/// reported in their course, in order.
pub fn run_events(installer: &mut Installer, events: &Vec<InstallEvent>) -> (notifications: Vec<
    Notification,
>)
    ensures
        final(installer)@.update == old(installer)@.update,
        final(installer)@.state == state_after(
            old(installer)@.update,
            old(installer)@.state,
            events@,
        ),
        notifications@ == notices_after(old(installer)@.update, old(installer)@.state, events@),
{
    let ghost update = installer@.update;
    let ghost begun = installer@.state;
    let mut notifications: Vec<Notification> = Vec::new();
    let mut done: usize = 0;
    assert(events@.skip(0) =~= events@);
    while done < events.len()
        invariant
            done <= events.len(),
            installer@.update == update,
            state_after(update, begun, events@) == state_after(
                update,
                installer@.state,
                events@.skip(done as int),
            ),
            notices_after(update, begun, events@) == notifications@ + notices_after(
                update,
                installer@.state,
                events@.skip(done as int),
            ),
        decreases events.len() - done,
    {
        let ghost rest = events@.skip(done as int);
        let ghost reported = notifications@;
        assert(rest[0] == events@[done as int]);
        assert(rest.drop_first() =~= events@.skip(done + 1));
        let report = installer.handle(&events[done]);
        if let Some(first) = report {
            notifications.push(first);
            assert(notifications@ + notices_after(update, installer@.state, rest.drop_first())
                =~= reported + (seq![first] + notices_after(
                update,
                installer@.state,
                rest.drop_first(),
            )));
        }
        done = done + 1;
    }
    assert(notifications@ + Seq::<Notification>::empty() =~= notifications@);
    notifications
}

/// Installs `update` against a record of what the host observed: starts, then
/// takes the events one after the other.
pub fn install(update: UpdateDescriptor, events: &Vec<InstallEvent>) -> (report: InstallReport)
    ensures
        report.state == state_after(update@, started(), events@),
        report.notifications@ == notices_after(update@, started(), events@),
{
    let mut installer = Installer::new(update);
    installer.start();
    let notifications = run_events(&mut installer, events);
    InstallReport { state: installer.state(), notifications }
}

/// Running two records one after the other is running them as one.
pub proof fn run_in_parts(
    update: DescriptorView,
    state: InstallState,
    first: Seq<InstallEvent>,
    second: Seq<InstallEvent>,
)
    ensures
        state_after(update, state, first + second) == state_after(
            update,
            state_after(update, state, first),
            second,
        ),
        notices_after(update, state, first + second) == notices_after(update, state, first)
            + notices_after(update, state_after(update, state, first), second),
    decreases first.len(),
{
    if first.len() == 0 {
        assert(first + second =~= second);
        assert(notices_after(update, state, first) + notices_after(update, state, second)
            =~= notices_after(update, state, second));
    } else {
        let all = first + second;
        let next = next_state(update, state, first[0]);
        assert(all[0] == first[0]);
        assert(all.drop_first() =~= first.drop_first() + second);
        run_in_parts(update, next, first.drop_first(), second);
        let tail = notices_after(update, next, first.drop_first());
        let last = notices_after(update, state_after(update, state, first), second);
        match notice(update, state, first[0]) {
            Some(head) => {
                assert(seq![head] + (tail + last) =~= (seq![head] + tail) + last);
            },
            None => {},
        }
    }
}

/// Nothing is reported but while fetching, and no state leads back to
/// fetching: an installation that has left `Fetching`, or has not started,
/// reports nothing more and does not fetch again.
pub proof fn only_fetching_reports(
    update: DescriptorView,
    state: InstallState,
    events: Seq<InstallEvent>,
)
    requires
        !(state is Fetching),
    ensures
        notices_after(update, state, events) == Seq::<Notification>::empty(),
        !(state_after(update, state, events) is Fetching),
    decreases events.len(),
{
    if events.len() > 0 {
        only_fetching_reports(update, next_state(update, state, events[0]), events.drop_first());
    }
}

/// An installation that has ended stays as it ended, whatever comes.
pub proof fn ended_stays_ended(
    update: DescriptorView,
    state: InstallState,
    events: Seq<InstallEvent>,
)
    requires
        outcome_in(state) is Some,
    ensures
        state_after(update, state, events) == state,
    decreases events.len(),
{
    if events.len() > 0 {
        ended_stays_ended(update, next_state(update, state, events[0]), events.drop_first());
    }
}

/// The events of a transfer in which chunks of these sizes were staged, and
/// for which the server advertised this length, if any.
pub open spec fn chunk_events(sizes: Seq<u64>, advertised: Option<u64>) -> Seq<InstallEvent> {
    Seq::new(sizes.len(), |i: int| InstallEvent::ChunkStaged { size: sizes[i], advertised })
}

/// The sum of the sizes.
pub open spec fn total_size(sizes: Seq<u64>) -> nat
    decreases sizes.len(),
{
    if sizes.len() == 0 {
        0
    } else {
        sizes[0] as nat + total_size(sizes.drop_first())
    }
}

/// A byte count as it is reported: itself, or the largest count that 64 bits
/// hold if it is larger.
pub open spec fn capped(count: nat) -> u64 {
    if count > u64::MAX {
        u64::MAX
    } else {
        count as u64
    }
}

/// The progress reports of a transfer in which chunks of these sizes were
/// staged after `already` bytes: one for each chunk, with the sum of the sizes
/// up to and with that chunk, and with the advertised length as the total.
pub open spec fn progress_reports(advertised: Option<u64>, already: nat, sizes: Seq<u64>) -> Seq<
    Notification,
> {
    Seq::new(
        sizes.len(),
        |i: int|
            Notification::Progress(
                DownloadProgress {
                    transferred: capped(already + total_size(sizes.take(i + 1))),
                    total: advertised,
                },
            ),
    )
}

/// The sizes up to an index sum to no more than the sizes up to a later one.
pub proof fn total_size_grows(sizes: Seq<u64>, shorter: int, longer: int)
    requires
        0 <= shorter <= longer <= sizes.len(),
    ensures
        total_size(sizes.take(shorter)) <= total_size(sizes.take(longer)),
    decreases shorter,
{
    if shorter > 0 {
        let a = sizes.take(shorter);
        let b = sizes.take(longer);
        assert(a.drop_first() =~= sizes.drop_first().take(shorter - 1));
        assert(b.drop_first() =~= sizes.drop_first().take(longer - 1));
        total_size_grows(sizes.drop_first(), shorter - 1, longer - 1);
    }
}

/// While fetching, staged chunks add up and each is reported.
pub proof fn chunks_are_counted(
    update: DescriptorView,
    advertised: Option<u64>,
    already: nat,
    sizes: Seq<u64>,
)
    ensures
        state_after(
            update,
            InstallState::Fetching { received: capped(already) },
            chunk_events(sizes, advertised),
        ) == (InstallState::Fetching { received: capped(already + total_size(sizes)) }),
        notices_after(
            update,
            InstallState::Fetching { received: capped(already) },
            chunk_events(sizes, advertised),
        ) == progress_reports(advertised, already, sizes),
    decreases sizes.len(),
{
    let state = InstallState::Fetching { received: capped(already) };
    let events = chunk_events(sizes, advertised);
    if sizes.len() == 0 {
        assert(progress_reports(advertised, already, sizes) =~= Seq::<Notification>::empty());
    } else {
        let more = already + sizes[0] as nat;
        assert(capped_sum(capped(already), sizes[0]) == capped(more));
        assert(events.drop_first() =~= chunk_events(sizes.drop_first(), advertised));
        chunks_are_counted(update, advertised, more, sizes.drop_first());
        let rest = progress_reports(advertised, more, sizes.drop_first());
        let all = progress_reports(advertised, already, sizes);
        assert(sizes.take(1).drop_first() =~= Seq::<u64>::empty());
        assert(total_size(sizes.take(1)) == sizes[0] as nat) by {
            assert(sizes.take(1)[0] == sizes[0]);
            assert(total_size(sizes.take(1).drop_first()) == 0);
        }
        assert forall|i: int| 0 <= i < rest.len() implies rest[i] == all[i + 1] by {
            assert(sizes.take(i + 2).drop_first() =~= sizes.drop_first().take(i + 1));
            assert(sizes.take(i + 2)[0] == sizes[0]);
        }
        assert(seq![all[0]] + rest =~= all);
    }
}

/// A transfer of any number of chunks that runs to its end is reported once
/// for each chunk, with byte counts that never fall and that are the sums of
/// the chunk sizes so far; then, once, as complete. That is when verifying
/// begins, and whatever follows, nothing more is reported.
pub proof fn complete_transfer_is_reported(
    update: DescriptorView,
    sizes: Seq<u64>,
    advertised: Option<u64>,
    rest: Seq<InstallEvent>,
)
    ensures
        state_after(update, started(), chunk_events(sizes, advertised).push(InstallEvent::StreamExhausted))
            == InstallState::Verifying,
        notices_after(
            update,
            started(),
            chunk_events(sizes, advertised).push(InstallEvent::StreamExhausted) + rest,
        ) == progress_reports(advertised, 0, sizes).push(Notification::DownloadComplete),
        forall|i: int, j: int|
            0 <= i <= j < sizes.len() ==> (#[trigger] progress_reports(advertised,
                0,
                sizes,
            )[i])->Progress_0.transferred <= (#[trigger] progress_reports(advertised,
                0,
                sizes,
            )[j])->Progress_0.transferred,
        total_size(sizes) <= u64::MAX ==> forall|i: int|
            0 <= i < sizes.len() ==> (#[trigger] progress_reports(advertised,
                0,
                sizes,
            )[i])->Progress_0.transferred == total_size(sizes.take(i + 1)),
{
    let chunks = chunk_events(sizes, advertised);
    let end = seq![InstallEvent::StreamExhausted];
    let fetched = InstallState::Fetching { received: capped(total_size(sizes)) };
    assert(chunks.push(InstallEvent::StreamExhausted) =~= chunks + end);
    chunks_are_counted(update, advertised, 0, sizes);
    run_in_parts(update, started(), chunks, end);
    reveal_with_fuel(state_after, 2);
    reveal_with_fuel(notices_after, 2);
    assert(state_after(update, fetched, end) == InstallState::Verifying);
    assert(notices_after(update, fetched, end) =~= seq![Notification::DownloadComplete]);
    run_in_parts(update, started(), chunks + end, rest);
    only_fetching_reports(update, InstallState::Verifying, rest);
    assert forall|i: int, j: int| 0 <= i <= j < sizes.len() implies (#[trigger] progress_reports(advertised,
        0,
        sizes,
    )[i])->Progress_0.transferred <= (#[trigger] progress_reports(advertised,
        0,
        sizes,
    )[j])->Progress_0.transferred by {
        total_size_grows(sizes, i + 1, j + 1);
    }
    if total_size(sizes) <= u64::MAX {
        assert forall|i: int| 0 <= i < sizes.len() implies (#[trigger] progress_reports(advertised,
            0,
            sizes,
        )[i])->Progress_0.transferred == total_size(sizes.take(i + 1)) by {
            total_size_grows(sizes, i + 1, sizes.len() as int);
            assert(sizes.take(sizes.len() as int) =~= sizes);
        }
    }
}

/// A complete transfer whose artifact has the descriptor's token, and which
/// the platform applies, succeeds.
pub proof fn intact_artifact_is_installed(
    update: DescriptorView,
    sizes: Seq<u64>,
    advertised: Option<u64>,
    token: String,
    rest: Seq<InstallEvent>,
)
    requires
        token@ == update.integrity,
    ensures
        state_after(
            update,
            started(),
            chunk_events(sizes, advertised) + seq![
                InstallEvent::StreamExhausted,
                InstallEvent::ArtifactToken(token),
                InstallEvent::PlatformInstalled,
            ] + rest,
        ) == InstallState::Succeeded,
{
    let chunks = chunk_events(sizes, advertised);
    let tail = seq![
        InstallEvent::StreamExhausted,
        InstallEvent::ArtifactToken(token),
        InstallEvent::PlatformInstalled,
    ];
    let fetched = InstallState::Fetching { received: capped(total_size(sizes)) };
    chunks_are_counted(update, advertised, 0, sizes);
    run_in_parts(update, started(), chunks, tail);
    reveal_with_fuel(state_after, 4);
    assert(state_after(update, fetched, tail) == InstallState::Succeeded);
    run_in_parts(update, started(), chunks + tail, rest);
    ended_stays_ended(update, InstallState::Succeeded, rest);
}

/// The same holds where the host's verifier accepts the artifact.
pub proof fn accepted_artifact_is_installed(
    update: DescriptorView,
    sizes: Seq<u64>,
    advertised: Option<u64>,
    rest: Seq<InstallEvent>,
)
    ensures
        state_after(
            update,
            started(),
            chunk_events(sizes, advertised) + seq![
                InstallEvent::StreamExhausted,
                InstallEvent::ArtifactAccepted,
                InstallEvent::PlatformInstalled,
            ] + rest,
        ) == InstallState::Succeeded,
{
    let chunks = chunk_events(sizes, advertised);
    let tail = seq![
        InstallEvent::StreamExhausted,
        InstallEvent::ArtifactAccepted,
        InstallEvent::PlatformInstalled,
    ];
    let fetched = InstallState::Fetching { received: capped(total_size(sizes)) };
    chunks_are_counted(update, advertised, 0, sizes);
    run_in_parts(update, started(), chunks, tail);
    reveal_with_fuel(state_after, 4);
    assert(state_after(update, fetched, tail) == InstallState::Succeeded);
    run_in_parts(update, started(), chunks + tail, rest);
    ended_stays_ended(update, InstallState::Succeeded, rest);
}

/// The states from which the platform has been asked to apply the artifact.
pub open spec fn applied_or_applying(state: InstallState) -> bool {
    state is Installing || state is Succeeded || state == InstallState::Failed(
        InstallError::PlatformRejected,
    )
}

/// Once the platform has been asked to apply the artifact, the installation
/// can only succeed or be refused by the platform.
proof fn lemma_applying_stays(update: DescriptorView, state: InstallState, events: Seq<InstallEvent>)
    requires
        applied_or_applying(state),
    ensures
        applied_or_applying(state_after(update, state, events)),
    decreases events.len(),
{
    if events.len() > 0 {
        lemma_applying_stays(update, next_state(update, state, events[0]), events.drop_first());
    }
}

/// An installation that failed for its artifact's integrity was at no time
/// installing: the platform was never asked to apply the artifact.
pub proof fn integrity_failure_never_installs(
    update: DescriptorView,
    events: Seq<InstallEvent>,
    upto: int,
)
    requires
        0 <= upto <= events.len(),
        state_after(update, started(), events) == InstallState::Failed(
            InstallError::IntegrityMismatch,
        ),
    ensures
        !applied_or_applying(state_after(update, started(), events.take(upto))),
{
    let state = state_after(update, started(), events.take(upto));
    assert(events.take(upto) + events.skip(upto) =~= events);
    run_in_parts(update, started(), events.take(upto), events.skip(upto));
    if applied_or_applying(state) {
        lemma_applying_stays(update, state, events.skip(upto));
    }
}

/// A staged artifact that does not have the descriptor's token fails the
/// installation, whatever follows, and at no time is the installer
/// installing: the installed application is left as it was.
pub proof fn mismatch_fails_without_installing(
    update: DescriptorView,
    sizes: Seq<u64>,
    advertised: Option<u64>,
    token: String,
    rest: Seq<InstallEvent>,
)
    requires
        token@ != update.integrity,
    ensures
        ({
            let events = chunk_events(sizes, advertised) + seq![
                InstallEvent::StreamExhausted,
                InstallEvent::ArtifactToken(token),
            ] + rest;
            &&& state_after(update, started(), events) == InstallState::Failed(
                InstallError::IntegrityMismatch,
            )
            &&& forall|upto: int|
                0 <= upto <= events.len() ==> !applied_or_applying(
                    #[trigger] state_after(update, started(), events.take(upto)),
                )
        }),
{
    let chunks = chunk_events(sizes, advertised);
    let tail = seq![InstallEvent::StreamExhausted, InstallEvent::ArtifactToken(token)];
    let events = chunks + tail + rest;
    let fetched = InstallState::Fetching { received: capped(total_size(sizes)) };
    chunks_are_counted(update, advertised, 0, sizes);
    run_in_parts(update, started(), chunks, tail);
    reveal_with_fuel(state_after, 3);
    assert(state_after(update, fetched, tail) == InstallState::Failed(
        InstallError::IntegrityMismatch,
    ));
    run_in_parts(update, started(), chunks + tail, rest);
    ended_stays_ended(update, InstallState::Failed(InstallError::IntegrityMismatch), rest);
    assert forall|upto: int| 0 <= upto <= events.len() implies !applied_or_applying(
        #[trigger] state_after(update, started(), events.take(upto)),
    ) by {
        integrity_failure_never_installs(update, events, upto);
    }
}

/// An artifact that the host's verifier refuses fails the installation in
/// the same way: whatever follows, the installer is at no time installing.
pub proof fn refused_artifact_fails_without_installing(
    update: DescriptorView,
    sizes: Seq<u64>,
    advertised: Option<u64>,
    rest: Seq<InstallEvent>,
)
    ensures
        ({
            let events = chunk_events(sizes, advertised) + seq![
                InstallEvent::StreamExhausted,
                InstallEvent::ArtifactRefused,
            ] + rest;
            &&& state_after(update, started(), events) == InstallState::Failed(
                InstallError::IntegrityMismatch,
            )
            &&& forall|upto: int|
                0 <= upto <= events.len() ==> !applied_or_applying(
                    #[trigger] state_after(update, started(), events.take(upto)),
                )
        }),
{
    let chunks = chunk_events(sizes, advertised);
    let tail = seq![InstallEvent::StreamExhausted, InstallEvent::ArtifactRefused];
    let events = chunks + tail + rest;
    let fetched = InstallState::Fetching { received: capped(total_size(sizes)) };
    chunks_are_counted(update, advertised, 0, sizes);
    run_in_parts(update, started(), chunks, tail);
    reveal_with_fuel(state_after, 3);
    assert(state_after(update, fetched, tail) == InstallState::Failed(
        InstallError::IntegrityMismatch,
    ));
    run_in_parts(update, started(), chunks + tail, rest);
    ended_stays_ended(update, InstallState::Failed(InstallError::IntegrityMismatch), rest);
    assert forall|upto: int| 0 <= upto <= events.len() implies !applied_or_applying(
        #[trigger] state_after(update, started(), events.take(upto)),
    ) by {
        integrity_failure_never_installs(update, events, upto);
    }
}

/// The events that record a failure of the host's work leave the
/// installation where `failed_from` says, and nothing is reported on the way.
pub proof fn failure_is_recorded(update: DescriptorView, state: InstallState, fault: HostFault)
    ensures
        state_after(update, state, failure_events(state, fault)) == failed_from(state, fault),
        notices_after(update, state, failure_events(state, fault)) == Seq::<
            Notification,
        >::empty(),
{
    reveal_with_fuel(state_after, 3);
    reveal_with_fuel(notices_after, 3);
    assert(notices_after(update, state, failure_events(state, fault)) =~= Seq::<
        Notification,
    >::empty());
}

/// The event that reports a transfer as failed for `reason`.
spec fn failure_event(reason: InstallError) -> InstallEvent {
    if reason is StagingWriteFailed {
        InstallEvent::StagingWriteFailed
    } else {
        InstallEvent::TransferInterrupted
    }
}

/// A transfer that fails midway fails the installation for the same reason,
/// whatever follows; what was staged before is reported, the completion is not.
proof fn lemma_failed_transfer(
    update: DescriptorView,
    sizes: Seq<u64>,
    advertised: Option<u64>,
    reason: InstallError,
    rest: Seq<InstallEvent>,
)
    requires
        reason is TransferInterrupted || reason is StagingWriteFailed,
    ensures
        state_after(update, started(), chunk_events(sizes, advertised).push(failure_event(reason)) + rest)
            == InstallState::Failed(reason),
        notices_after(update, started(), chunk_events(sizes, advertised).push(failure_event(reason)) + rest)
            == progress_reports(advertised, 0, sizes),
        !notices_after(
            update,
            started(),
            chunk_events(sizes, advertised).push(failure_event(reason)) + rest,
        ).contains(Notification::DownloadComplete),
{
    let chunks = chunk_events(sizes, advertised);
    let end = seq![failure_event(reason)];
    let fetched = InstallState::Fetching { received: capped(total_size(sizes)) };
    assert(chunks.push(failure_event(reason)) =~= chunks + end);
    chunks_are_counted(update, advertised, 0, sizes);
    run_in_parts(update, started(), chunks, end);
    reveal_with_fuel(state_after, 2);
    reveal_with_fuel(notices_after, 2);
    assert(state_after(update, fetched, end) == InstallState::Failed(reason));
    assert(notices_after(update, fetched, end) =~= Seq::<Notification>::empty());
    run_in_parts(update, started(), chunks + end, rest);
    ended_stays_ended(update, InstallState::Failed(reason), rest);
    only_fetching_reports(update, InstallState::Failed(reason), rest);
    assert(notices_after(update, started(), chunks + end + rest) =~= progress_reports(advertised,
        0,
        sizes,
    ));
}

/// A transfer that is interrupted after any number of chunks fails the
/// installation, whatever follows. The chunks staged before are reported; the
/// completion never is.
pub proof fn interrupted_transfer_never_completes(
    update: DescriptorView,
    sizes: Seq<u64>,
    advertised: Option<u64>,
    rest: Seq<InstallEvent>,
)
    ensures
        state_after(
            update,
            started(),
            chunk_events(sizes, advertised).push(InstallEvent::TransferInterrupted) + rest,
        ) == InstallState::Failed(InstallError::TransferInterrupted),
        notices_after(
            update,
            started(),
            chunk_events(sizes, advertised).push(InstallEvent::TransferInterrupted) + rest,
        ) == progress_reports(advertised, 0, sizes),
        !notices_after(
            update,
            started(),
            chunk_events(sizes, advertised).push(InstallEvent::TransferInterrupted) + rest,
        ).contains(Notification::DownloadComplete),
{
    lemma_failed_transfer(update, sizes, advertised, InstallError::TransferInterrupted, rest);
}

/// A chunk that cannot be staged fails the installation in the same way.
pub proof fn failed_write_never_completes(
    update: DescriptorView,
    sizes: Seq<u64>,
    advertised: Option<u64>,
    rest: Seq<InstallEvent>,
)
    ensures
        state_after(
            update,
            started(),
            chunk_events(sizes, advertised).push(InstallEvent::StagingWriteFailed) + rest,
        ) == InstallState::Failed(InstallError::StagingWriteFailed),
        notices_after(
            update,
            started(),
            chunk_events(sizes, advertised).push(InstallEvent::StagingWriteFailed) + rest,
        ) == progress_reports(advertised, 0, sizes),
        !notices_after(
            update,
            started(),
            chunk_events(sizes, advertised).push(InstallEvent::StagingWriteFailed) + rest,
        ).contains(Notification::DownloadComplete),
{
    lemma_failed_transfer(update, sizes, advertised, InstallError::StagingWriteFailed, rest);
}

/// The states in which the stream has been received to its end.
pub open spec fn past_fetching(state: InstallState) -> bool {
    state is Verifying || applied_or_applying(state) || state == InstallState::Failed(
        InstallError::IntegrityMismatch,
    )
}

/// A stream that has been received stays received.
proof fn lemma_past_fetching_stays(
    update: DescriptorView,
    state: InstallState,
    events: Seq<InstallEvent>,
)
    requires
        past_fetching(state),
    ensures
        past_fetching(state_after(update, state, events)),
    decreases events.len(),
{
    if events.len() > 0 {
        lemma_past_fetching_stays(
            update,
            next_state(update, state, events[0]),
            events.drop_first(),
        );
    }
}

/// Whatever the host observes while and after fetching, the reports come in
/// order: progress first, with byte counts that never fall, and the
/// completion last, if at all. The completion is reported exactly when the
/// stream was received to its end.
pub proof fn reports_are_ordered(update: DescriptorView, received: u64, events: Seq<InstallEvent>)
    ensures
        ({
            let notices = notices_after(update, InstallState::Fetching { received }, events);
            let state = state_after(update, InstallState::Fetching { received }, events);
            &&& forall|i: int| 0 <= i < notices.len() - 1 ==> (#[trigger] notices[i]) is Progress
            &&& forall|i: int|
                0 <= i < notices.len() && (#[trigger] notices[i]) is Progress
                    ==> notices[i]->Progress_0.transferred >= received
            &&& forall|i: int, j: int|
                0 <= i <= j < notices.len() && (#[trigger] notices[i]) is Progress
                    && (#[trigger] notices[j]) is Progress
                    ==> notices[i]->Progress_0.transferred <= notices[j]->Progress_0.transferred
            &&& notices.contains(Notification::DownloadComplete) <==> past_fetching(state)
        }),
    decreases events.len(),
{
    let begun = InstallState::Fetching { received };
    let notices = notices_after(update, begun, events);
    if events.len() > 0 {
        let next = next_state(update, begun, events[0]);
        let rest = events.drop_first();
        let tail = notices_after(update, next, rest);
        match events[0] {
            InstallEvent::ChunkStaged { size, .. } => {
                let more = capped_sum(received, size);
                reports_are_ordered(update, more, rest);
                assert(notices.len() == tail.len() + 1);
                assert(notices[0] is Progress);
                assert forall|i: int| 1 <= i < notices.len() implies notices[i] == tail[i - 1] by {}
                if tail.contains(Notification::DownloadComplete) {
                    let at = choose|i: int|
                        0 <= i < tail.len() && tail[i] == Notification::DownloadComplete;
                    assert(notices[at + 1] == Notification::DownloadComplete);
                }
                if notices.contains(Notification::DownloadComplete) {
                    let at = choose|i: int|
                        0 <= i < notices.len() && notices[i] == Notification::DownloadComplete;
                    assert(tail[at - 1] == Notification::DownloadComplete);
                }
            },
            InstallEvent::StreamExhausted => {
                only_fetching_reports(update, InstallState::Verifying, rest);
                lemma_past_fetching_stays(update, InstallState::Verifying, rest);
                assert(notices[0] == Notification::DownloadComplete);
            },
            InstallEvent::TransferInterrupted => {
                only_fetching_reports(update, next, rest);
                ended_stays_ended(update, next, rest);
            },
            InstallEvent::StagingWriteFailed => {
                only_fetching_reports(update, next, rest);
                ended_stays_ended(update, next, rest);
            },
            _ => {
                reports_are_ordered(update, received, rest);
            },
        }
    }
}

/// How far an installation in `state` has come: the stages in their order.
pub open spec fn stage_of(state: InstallState) -> nat {
    match state {
        InstallState::Idle => 0,
        InstallState::Fetching { .. } => 1,
        InstallState::Verifying => 2,
        InstallState::Installing => 3,
        InstallState::Succeeded => 4,
        InstallState::Failed(_) => 4,
    }
}

/// No event leads back: the stage after any events is the stage before them
/// or a later one, and while fetching the bytes received never fall.
pub proof fn stages_only_advance(
    update: DescriptorView,
    state: InstallState,
    events: Seq<InstallEvent>,
)
    ensures
        stage_of(state) <= stage_of(state_after(update, state, events)),
        state matches InstallState::Fetching { received: before } ==> (state_after(
            update,
            state,
            events,
        ) matches InstallState::Fetching { received: after } ==> before <= after),
    decreases events.len(),
{
    if events.len() > 0 {
        stages_only_advance(update, next_state(update, state, events[0]), events.drop_first());
    }
}

} // verus!
