//! The handler of the staking-position query.
//!
//! The handler decides and the caller acts. `get_neco_staked_info` is given
//! the request and what is known so far, and says what comes next: either the
//! two chain reads are to be made on a network, or the answer is ready. A
//! request whose selector names no network is answered at once, so that no
//! read is ever asked for on its behalf.

use vstd::prelude::*;
use crate::decimal::decimal;
use crate::decimal::decimal_value;
use crate::decimal::is_canonical;
use crate::decimal::lemma_decimal_injective;
use crate::decimal::lemma_decimal_is_canonical;
use crate::decimal::lemma_decimal_round_trip;
use crate::decimal::lemma_zero_notation;
use crate::model::GetNECOStakedInfoRequest;
use crate::model::GetNECOStakedInfoRequestView;
use crate::model::NECOStakedInfo;
use crate::model::NECOStakedInfoView;
use crate::network::NetworkType;
use crate::response::NecoResponse;
use crate::response::NecoResponseView;
use crate::response::STATUS_BAD_REQUEST;
use crate::response::STATUS_OK;
use crate::uint256::Uint256;

verus! {

/// A chain read that gave no value, for whatever reason: the node could not
/// be reached, or what it sent could not be decoded.
#[derive(Clone, Copy, Debug, PartialEq, Eq)]
pub struct ChainReadFailure;

/// What the caller knows when it turns to the handler.
#[derive(Clone, Copy, Debug, PartialEq, Eq)]
pub enum Progress {
    /// The request has come in and nothing has been read.
    Received,
    /// Both reads have ended, each with a value or a failure of its own.
    Settled { amount: Result<Uint256, ChainReadFailure>, time: Result<Uint256, ChainReadFailure> },
}

/// What the caller is to do next.
#[derive(Clone, Debug, PartialEq, Eq)]
pub enum Step {
    /// Read the staked amount and the staked time of the request's address on
    /// this network, in any order or at once, and come back with
    /// `Progress::Settled`.
    Read { network: NetworkType },
    /// Send this answer.
    Respond(NecoResponse<NECOStakedInfo>),
}

/// A `Step` with its answer by its view.
pub enum StepView {
    Read { network: NetworkType },
    Respond(NecoResponseView<NECOStakedInfoView>),
}

impl View for Step {
    type V = StepView;

    open spec fn view(&self) -> StepView {
        match *self {
            Step::Read { network } => StepView::Read { network },
            Step::Respond(response) => StepView::Respond(response@),
        }
    }
}

/// The message of the answer to a selector that names no network.
pub open spec fn network_error_message() -> Seq<char> {
    "network type error"@
}

/// The answer to a selector that names no network.
pub open spec fn network_error() -> NecoResponseView<NECOStakedInfoView> {
    NecoResponseView::err(STATUS_BAD_REQUEST, network_error_message())
}

/// The number that a read stands for in the answer: its value, or zero where
/// it failed.
pub open spec fn settled(read: Result<Uint256, ChainReadFailure>) -> nat {
    match read {
        Ok(value) => value@,
        Err(_) => 0,
    }
}

/// The answer to a request whose selector names a network, once both reads
/// have ended.
pub open spec fn staked_info_response(
    public_address: Seq<char>,
    amount: Result<Uint256, ChainReadFailure>,
    time: Result<Uint256, ChainReadFailure>,
) -> NecoResponseView<NECOStakedInfoView> {
    NecoResponseView::ok(NECOStakedInfoView::of(public_address, settled(amount), settled(time)))
}

/// What follows from a request and what is known so far.
pub open spec fn next_step(request: GetNECOStakedInfoRequestView, progress: Progress) -> StepView {
    match NetworkType::of_selector(request.network) {
        None => StepView::Respond(network_error()),
        Some(network) => match progress {
            Progress::Received => StepView::Read { network },
            Progress::Settled { amount, time } => StepView::Respond(
                staked_info_response(request.public_address, amount, time),
            ),
        },
    }
}

/// Settles a read: the value that was read, or zero where the read failed.
pub fn settle(read: Result<Uint256, ChainReadFailure>) -> (value: Uint256)
    ensures
        value@ == settled(read),
        read matches Ok(read_value) ==> value == read_value,
{
    match read {
        Ok(value) => value,
        Err(_) => Uint256::zero(),
    }
}

/// Decides what follows from a request and what is known so far.
///
/// A selector that names no network is answered with `network_error`,
/// whatever `progress` says. Otherwise the handler asks for the two reads on
/// the network that the selector names, and, when it is handed their
/// outcomes, answers with the position, a failed read counting as zero.
pub fn get_neco_staked_info(param: &GetNECOStakedInfoRequest, progress: Progress) -> (step: Step)
    ensures
        step@ == next_step(param@, progress),
{
    let network = match NetworkType::from_selector(param.network) {
        Some(network) => network,
        None => {
            return Step::Respond(NecoResponse::err(STATUS_BAD_REQUEST, "network type error"));
        },
    };
    match progress {
        Progress::Received => Step::Read { network },
        Progress::Settled { amount, time } => {
            let staked_amount = settle(amount);
            let staked_time = settle(time);
            Step::Respond(
                NecoResponse::ok(
                    NECOStakedInfo::new(&param.public_address, &staked_amount, &staked_time),
                ),
            )
        },
    }
}

/// The message of `network_error` reads "network type error", letter for
/// letter.
pub proof fn lemma_network_error_message()
    ensures
        network_error_message() == seq![
            'n', 'e', 't', 'w', 'o', 'r', 'k', ' ', 't', 'y', 'p', 'e', ' ', 'e', 'r', 'r', 'o',
            'r',
        ],
{
    reveal_strlit("network type error");
    assert(network_error_message() =~= seq![
        'n', 'e', 't', 'w', 'o', 'r', 'k', ' ', 't', 'y', 'p', 'e', ' ', 'e', 'r', 'r', 'o', 'r',
    ]);
}

/// A selector other than 0 and 1 is answered with `network_error`, whatever
/// is known so far, and `network_error` is a client error that carries the
/// message "network type error" and no payload. The handler therefore never
/// asks for a chain read on behalf of such a request.
pub proof fn lemma_unknown_selector_is_rejected(
    request: GetNECOStakedInfoRequestView,
    progress: Progress,
)
    requires
        request.network != 0,
        request.network != 1,
    ensures
        next_step(request, progress) == StepView::Respond(network_error()),
        !(next_step(request, progress) is Read),
        network_error().is_client_error(),
        network_error().well_formed(),
        network_error().status == 400,
        network_error().message == Some("network type error"@),
        network_error().data is None,
{
}

/// For the selector 0 the reads are asked for on the main network, for the
/// selector 1 on the test network, and for no selector on any other.
pub proof fn lemma_selector_binds_network(request: GetNECOStakedInfoRequestView)
    ensures
        request.network == 0 ==> next_step(request, Progress::Received) == (StepView::Read {
            network: NetworkType::BSCMainNetwork,
        }),
        request.network == 1 ==> next_step(request, Progress::Received) == (StepView::Read {
            network: NetworkType::BSCTestNetwork,
        }),
        next_step(request, Progress::Received) is Read ==> request.network == 0 || request.network
            == 1,
{
}

/// Once both reads have ended the handler answers: it asks for reads once at
/// most. For a selector that names a network the answer is a success with
/// the status `STATUS_OK`, whether the reads failed or not, and it carries the
/// address of the request unchanged.
pub proof fn lemma_settled_is_answered(
    request: GetNECOStakedInfoRequestView,
    amount: Result<Uint256, ChainReadFailure>,
    time: Result<Uint256, ChainReadFailure>,
)
    ensures
        next_step(request, Progress::Settled { amount, time }) is Respond,
        NetworkType::of_selector(request.network) is Some ==> {
            let response = next_step(request, Progress::Settled { amount, time })->Respond_0;
            &&& response.success
            &&& response.status == STATUS_OK
            &&& response.message is None
            &&& response.data is Some
            &&& response.data->0.public_address == request.public_address
        },
{
}

/// Every answer of the handler is well formed: a payload under the status
/// `STATUS_OK` and no message, or a message and no payload.
pub proof fn lemma_answers_are_well_formed(
    request: GetNECOStakedInfoRequestView,
    progress: Progress,
)
    ensures
        next_step(request, progress) matches StepView::Respond(response)
            ==> response.well_formed(),
{
}

/// The two reads do not touch each other: the amount in the answer is the
/// same whatever the time read gave, and the time in the answer is the same
/// whatever the amount read gave.
pub proof fn lemma_reads_are_independent(
    request: GetNECOStakedInfoRequestView,
    amount: Result<Uint256, ChainReadFailure>,
    time: Result<Uint256, ChainReadFailure>,
    other: Result<Uint256, ChainReadFailure>,
)
    requires
        NetworkType::of_selector(request.network) is Some,
    ensures
        next_step(request, Progress::Settled { amount, time })->Respond_0.data->0.staked_amount
            == next_step(
            request,
            Progress::Settled { amount, time: other },
        )->Respond_0.data->0.staked_amount,
        next_step(request, Progress::Settled { amount, time })->Respond_0.data->0.staked_time
            == next_step(
            request,
            Progress::Settled { amount: other, time },
        )->Respond_0.data->0.staked_time,
{
}

/// The amount and the time in an answer are canonical decimal strings: not
/// empty, digits only, and without a leading zero but in "0" itself.
pub proof fn lemma_answer_is_canonical(
    request: GetNECOStakedInfoRequestView,
    amount: Result<Uint256, ChainReadFailure>,
    time: Result<Uint256, ChainReadFailure>,
)
    requires
        NetworkType::of_selector(request.network) is Some,
    ensures
        is_canonical(
            next_step(request, Progress::Settled { amount, time })->Respond_0.data->0.staked_amount,
        ),
        is_canonical(
            next_step(request, Progress::Settled { amount, time })->Respond_0.data->0.staked_time,
        ),
{
    lemma_decimal_is_canonical(settled(amount));
    lemma_decimal_is_canonical(settled(time));
}

/// Where both reads give a value, the answer carries the address of the
/// request and the decimal notation of the two values, and each value is read
/// back from its notation exactly, however large it is.
pub proof fn lemma_both_reads_succeed(
    request: GetNECOStakedInfoRequestView,
    amount: Uint256,
    time: Uint256,
)
    requires
        NetworkType::of_selector(request.network) is Some,
    ensures
        next_step(request, Progress::Settled { amount: Ok(amount), time: Ok(time) })
            == StepView::Respond(
            NecoResponseView::ok(
                (NECOStakedInfoView {
                    public_address: request.public_address,
                    staked_amount: decimal(amount@),
                    staked_time: decimal(time@),
                }),
            ),
        ),
        decimal_value(decimal(amount@)) == Some(amount@),
        decimal_value(decimal(time@)) == Some(time@),
{
    lemma_decimal_round_trip(amount@);
    lemma_decimal_round_trip(time@);
}

/// Two 256-bit integers with the same decimal notation are the same integer:
/// the notation in an answer determines the value that was read, word for
/// word.
pub proof fn lemma_notation_determines_value(a: Uint256, b: Uint256)
    requires
        decimal(a@) == decimal(b@),
    ensures
        a == b,
{
    lemma_decimal_injective(a@, b@);
    a.lemma_view_injective(b);
}

/// Where the amount read fails and the time read gives a value, the answer
/// carries "0" as the amount and the notation of the value as the time.
pub proof fn lemma_amount_read_fails(
    request: GetNECOStakedInfoRequestView,
    failure: ChainReadFailure,
    time: Uint256,
)
    requires
        NetworkType::of_selector(request.network) is Some,
    ensures
        next_step(request, Progress::Settled { amount: Err(failure), time: Ok(time) })
            == StepView::Respond(
            NecoResponseView::ok(
                (NECOStakedInfoView {
                    public_address: request.public_address,
                    staked_amount: "0"@,
                    staked_time: decimal(time@),
                }),
            ),
        ),
{
    lemma_zero_notation();
}

/// Where the time read fails and the amount read gives a value, the answer
/// carries the notation of the value as the amount and "0" as the time.
pub proof fn lemma_time_read_fails(
    request: GetNECOStakedInfoRequestView,
    amount: Uint256,
    failure: ChainReadFailure,
)
    requires
        NetworkType::of_selector(request.network) is Some,
    ensures
        next_step(request, Progress::Settled { amount: Ok(amount), time: Err(failure) })
            == StepView::Respond(
            NecoResponseView::ok(
                (NECOStakedInfoView {
                    public_address: request.public_address,
                    staked_amount: decimal(amount@),
                    staked_time: "0"@,
                }),
            ),
        ),
{
    lemma_zero_notation();
}

/// Where both reads fail, the answer is still a success, and it carries "0"
/// as the amount and as the time.
pub proof fn lemma_both_reads_fail(
    request: GetNECOStakedInfoRequestView,
    amount_failure: ChainReadFailure,
    time_failure: ChainReadFailure,
)
    requires
        NetworkType::of_selector(request.network) is Some,
    ensures
        next_step(
            request,
            Progress::Settled { amount: Err(amount_failure), time: Err(time_failure) },
        ) == StepView::Respond(
            (NecoResponseView {
                success: true,
                status: STATUS_OK,
                message: None,
                data: Some(
                    (NECOStakedInfoView {
                        public_address: request.public_address,
                        staked_amount: "0"@,
                        staked_time: "0"@,
                    }),
                ),
            }),
        ),
{
    lemma_zero_notation();
}

/// A failed read is answered as a read of zero is: the answer does not tell
/// the two apart.
pub proof fn lemma_failure_answers_as_zero(
    request: GetNECOStakedInfoRequestView,
    failure: ChainReadFailure,
    zero: Uint256,
    other: Result<Uint256, ChainReadFailure>,
)
    requires
        zero@ == 0,
    ensures
        next_step(request, Progress::Settled { amount: Err(failure), time: other }) == next_step(
            request,
            Progress::Settled { amount: Ok(zero), time: other },
        ),
        next_step(request, Progress::Settled { amount: other, time: Err(failure) }) == next_step(
            request,
            Progress::Settled { amount: other, time: Ok(zero) },
        ),
{
}

} // verus!
