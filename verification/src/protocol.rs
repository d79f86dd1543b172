//! Whole operations as single transitions, and what holds of their
//! sequences.
//!
//! An operation runs as two steps of [`AppData`] with the driver's work in
//! between. Here each operation is one transition that takes the driver's
//! answer as an input, which describes the operations when they run one
//! after the other. Everything in this module is ghost code.

use vstd::prelude::*;
use crate::device::{Libra, Reading};
use crate::error::AppError;
use crate::state::{AppData, Session};

verus! {

/// Connecting: the check, and where it passes the record of the driver's
/// answer `opened`.
pub open spec fn connect<H>(state: AppData<H>, opened: Result<Session<H>, AppError>) -> (
    AppData<H>,
    Result<(), AppError>,
) {
    match state.connect_allowed() {
        Err(error) => (state, Err(error)),
        Ok(_) => state.after_complete_connect(opened),
    }
}

/// Weighing: the session is taken out, and where there was one it goes back
/// and the driver's answer `weighed` is handed on.
pub open spec fn weigh<H>(state: AppData<H>, weighed: Result<Reading, AppError>) -> (
    AppData<H>,
    Result<Reading, AppError>,
) {
    match state.after_take_session() {
        (unchanged, Err(error)) => (unchanged, Err(error)),
        (taken, Ok(session)) => taken.after_complete_weigh(session, weighed),
    }
}

/// Disconnecting.
pub open spec fn disconnect<H>(state: AppData<H>) -> (AppData<H>, Result<(), AppError>) {
    state.after_drop_scale()
}

/// The zero-point capture with the driver's answer `captured`.
pub open spec fn calibrate_empty<H>(
    state: AppData<H>,
    captured: Result<(Session<H>, Reading), AppError>,
) -> (AppData<H>, Result<(), AppError>) {
    state.after_begin_calibrate_empty().after_complete_calibrate_empty(captured)
}

/// The test-weight capture: the check, and where it passes the record of
/// the driver's answer `reopened`.
pub open spec fn finish_calibration<H>(
    state: AppData<H>,
    reopened: Result<Session<H>, AppError>,
) -> (AppData<H>, Result<Libra, AppError>) {
    match state.after_begin_finish_calibration() {
        (unchanged, Err(error)) => (unchanged, Err(error)),
        (taken, Ok(_)) => taken.after_complete_finish_calibration(reopened),
    }
}

/// One operation on the scale together with what the driver answers if the
/// operation gets as far as asking it.
pub enum Call<H> {
    Connect(Result<Session<H>, AppError>),
    Weigh(Result<Reading, AppError>),
    Disconnect,
    CalibrateEmpty(Result<(Session<H>, Reading), AppError>),
    FinishCalibration(Result<Session<H>, AppError>),
}

/// The state after one operation.
pub open spec fn step<H>(state: AppData<H>, call: Call<H>) -> AppData<H> {
    match call {
        Call::Connect(opened) => connect(state, opened).0,
        Call::Weigh(weighed) => weigh(state, weighed).0,
        Call::Disconnect => disconnect(state).0,
        Call::CalibrateEmpty(captured) => calibrate_empty(state, captured).0,
        Call::FinishCalibration(reopened) => finish_calibration(state, reopened).0,
    }
}

/// The state after a sequence of operations, first to last.
pub open spec fn run<H>(state: AppData<H>, calls: Seq<Call<H>>) -> AppData<H>
    decreases calls.len(),
{
    if calls.len() == 0 {
        state
    } else {
        step(run(state, calls.drop_last()), calls.last())
    }
}

/// Running one operation more is a step from where the shorter sequence
/// ended.
pub proof fn lemma_run_extends<H>(state: AppData<H>, calls: Seq<Call<H>>, k: int)
    requires
        0 <= k < calls.len(),
    ensures
        run(state, calls.take(k + 1)) == step(run(state, calls.take(k)), calls[k]),
{
    assert(calls.take(k + 1).drop_last() == calls.take(k));
}

/// At most one session is held, whatever is called in whatever order. At
/// every place of a sequence of operations: a connect that finds a session
/// fails with `ScaleAlreadyConnected` and changes nothing; a connect that
/// finds none holds afterwards exactly what the driver opened, and where the
/// driver failed the state is as before; weighing leaves the state as it
/// was, whatever the driver answered; and after a disconnect no session is
/// held.
pub proof fn lemma_single_session<H>(start: AppData<H>, calls: Seq<Call<H>>, k: int)
    requires
        0 <= k < calls.len(),
    ensures
        ({
            let before = run(start, calls.take(k));
            let after = run(start, calls.take(k + 1));
            &&& after == step(before, calls[k])
            &&& calls[k] matches Call::Connect(opened) ==> {
                &&& before.scale is Some ==> connect(before, opened) == (
                    before,
                    Err::<(), AppError>(AppError::ScaleAlreadyConnected),
                )
                &&& before.scale is None && opened is Ok ==> after.scale == Some(opened->Ok_0)
                &&& before.scale is None && opened is Err ==> after == before
            }
            &&& calls[k] is Weigh ==> after == before
            &&& calls[k] is Disconnect ==> after.scale is None
        }),
{
    lemma_run_extends(start, calls, k);
}

/// Neither step of connecting touches a session that is held, whatever the
/// driver answered and in whatever order the steps of several connects
/// arrive.
pub proof fn lemma_connect_keeps_held<H>(state: AppData<H>, opened: Result<Session<H>, AppError>)
    requires
        state.scale is Some,
    ensures
        state.connect_allowed() == Err::<(), AppError>(AppError::ScaleAlreadyConnected),
        state.after_complete_connect(opened).0 == state,
        state.after_complete_connect(opened).1 is Err,
        opened is Ok ==> state.after_complete_connect(opened).1 == Err::<(), AppError>(
            AppError::ScaleAlreadyConnected,
        ),
{
}

/// Disconnecting where no session is held fails with `NoScaleConnected` and
/// changes nothing.
pub proof fn lemma_disconnect_absent<H>(state: AppData<H>)
    requires
        state.scale is None,
    ensures
        disconnect(state) == (state, Err::<(), AppError>(AppError::NoScaleConnected)),
{
}

/// Of two disconnects in a row the second always fails with
/// `NoScaleConnected`.
pub proof fn lemma_disconnect_twice<H>(state: AppData<H>)
    ensures
        disconnect(disconnect(state).0).1 == Err::<(), AppError>(AppError::NoScaleConnected),
{
}

/// The zero-point reading comes into the state through a zero-point capture
/// and in no other way.
pub proof fn lemma_reading_needs_capture<H>(start: AppData<H>, calls: Seq<Call<H>>)
    requires
        start.empty_calibration_reading is None,
        forall|i: int| 0 <= i < calls.len() ==> !(#[trigger] calls[i] is CalibrateEmpty),
    ensures
        run(start, calls).empty_calibration_reading is None,
    decreases calls.len(),
{
    if calls.len() > 0 {
        let earlier = calls.drop_last();
        assert forall|i: int| 0 <= i < earlier.len() implies !(#[trigger] earlier[i]
            is CalibrateEmpty) by {
            assert(earlier[i] == calls[i]);
        }
        lemma_reading_needs_capture(start, earlier);
        assert(!(calls[calls.len() - 1] is CalibrateEmpty));
    }
}

/// A test-weight capture that no zero-point capture went before fails with
/// `NoEmptyCalibrationValue` and changes nothing, whatever else was called
/// since start-up.
pub proof fn lemma_finish_before_capture<H>(
    calls: Seq<Call<H>>,
    reopened: Result<Session<H>, AppError>,
)
    requires
        forall|i: int| 0 <= i < calls.len() ==> !(#[trigger] calls[i] is CalibrateEmpty),
    ensures
        ({
            let state = run(AppData::<H>::initial(), calls);
            finish_calibration(state, reopened) == (
                state,
                Err::<Libra, AppError>(AppError::NoEmptyCalibrationValue),
            )
        }),
{
    lemma_reading_needs_capture(AppData::<H>::initial(), calls);
}

/// A test-weight capture uses the zero-point reading up: where one has
/// succeeded, or has found no reading, the next one fails with
/// `NoEmptyCalibrationValue` and changes nothing.
pub proof fn lemma_finish_twice<H>(
    state: AppData<H>,
    first: Result<Session<H>, AppError>,
    second: Result<Session<H>, AppError>,
)
    requires
        state.empty_calibration_reading is None || finish_calibration(state, first).1 is Ok,
    ensures
        ({
            let between = finish_calibration(state, first).0;
            finish_calibration(between, second) == (
                between,
                Err::<Libra, AppError>(AppError::NoEmptyCalibrationValue),
            )
        }),
{
}

/// A test-weight capture that fails keeps the zero-point reading, so that
/// the capture can be tried again after reconnecting.
pub proof fn lemma_failed_finish_keeps_reading<H>(
    state: AppData<H>,
    reopened: Result<Session<H>, AppError>,
)
    requires
        finish_calibration(state, reopened).1 is Err,
    ensures
        finish_calibration(state, reopened).0.empty_calibration_reading
            == state.empty_calibration_reading,
{
}

} // verus!
