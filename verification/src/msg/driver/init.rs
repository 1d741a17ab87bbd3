//! The order in which the driver is set up.

use vstd::prelude::*;

use crate::error::LkError;
use crate::msg::device::handle_req::handle;
use crate::msg::device::DeviceView;
use crate::msg::driver::requests::{request_msg, version_offer, VirtioMsgReq};
use crate::msg::driver::{
    can_enumerate, driver_init, driver_init_result, ids_in_bitmap, init_device, init_receiver_id,
    is_valid_page, law_enumeration_of_a_device, negotiate_version, reply_payload,
    reply_payload_variable, DeviceEnumeration, FFAInitState, Reply, NUM_REQ_DEVICES,
    RECEIVER_ID_UNKNOWN,
};
use crate::msg::exchange::{
    law_answers_are_responses, law_device_info_exchange, law_version_exchange, lemma_request_msg,
};
use crate::payload::{
    BusFfaVersionResp, BusGetDevices, BusGetDevicesResp, GetDeviceInfoResp, Payload,
};
use crate::proto::{
    VIRTIO_MSG_BUS_GET_DEVICES, VIRTIO_MSG_DEVICE_INFO, VIRTIO_MSG_FFA_BUS_VERSION,
    VIRTIO_MSG_FFA_BUS_VERSION_1_0, VIRTIO_MSG_REVISION_1,
};
use crate::virtio::VIRTIO_ID_VSOCK;
use crate::wire::msg_bytes;

verus! {

/// What has to be done next to set up the driver.
#[derive(Clone, Copy, Debug, PartialEq, Eq)]
pub enum DriverStep {
    /// Count the partitions that offer the bus.
    CountPartitions,
    /// Get the descriptors of the partitions that offer the bus.
    DescribePartitions,
    /// Send a version request.
    NegotiateVersion,
    /// Allocate the heap and share it with the device.
    ShareHeap,
    /// Send the next request of the walk over the devices.
    EnumerateDevices,
    /// Ask what kind of device there is.
    GetDeviceInfo { dev_id: u16 },
    /// Start a socket device, with a transport of its own.
    StartSocket { dev_id: u16 },
    /// Nothing: the driver is set up, disabled, or failed.
    Done(Result<(), LkError>),
}

/// What a step returned.
#[derive(Debug)]
pub enum DriverInput {
    /// How many partitions offer the bus.
    Count(Result<usize, LkError>),
    /// The ids of the partitions that offer the bus.
    Partitions(Result<Vec<u16>, LkError>),
    /// The reply to a request.
    Reply(Reply),
    /// Whether something was done.
    Finished(Result<(), LkError>),
}

/// A driver that is being set up.
#[derive(Debug)]
pub struct DriverInit {
    /// The id of the partition to send requests to (see [`RECEIVER_ID_UNKNOWN`]).
    pub receiver_id: u32,
    /// The walk over the devices.
    pub walk: DeviceEnumeration,
    /// How many of the devices that were found have been asked about.
    pub num_asked: usize,
}

/// A mathematical model of [`DriverInit`].
pub struct DriverInitView {
    pub receiver_id: u32,
    pub device_ids: Seq<u16>,
    pub offset: u16,
    pub num_asked: nat,
}

impl View for DriverInit {
    type V = DriverInitView;

    open spec fn view(&self) -> DriverInitView {
        DriverInitView {
            receiver_id: self.receiver_id,
            device_ids: self.walk.device_ids@,
            offset: self.walk.next_bitmap_offset,
            num_asked: self.num_asked as nat,
        }
    }
}

/// Goes on to the first device that has not been asked about.
pub open spec fn to_next_device(d: DriverInitView) -> (DriverInitView, DriverStep) {
    if d.num_asked < d.device_ids.len() {
        (
            DriverInitView { num_asked: d.num_asked + 1, ..d },
            DriverStep::GetDeviceInfo { dev_id: d.device_ids[d.num_asked as int] },
        )
    } else {
        (d, DriverStep::Done(Ok(())))
    }
}

/// The first step.
pub open spec fn driver_first(state: FFAInitState) -> DriverStep {
    match driver_init_result(state) {
        Ok(true) => DriverStep::CountPartitions,
        Ok(false) => DriverStep::Done(Ok(())),
        Err(e) => DriverStep::Done(Err(e)),
    }
}

/// Whether `input` is what `step` returns.
pub open spec fn is_input_of(d: DriverInitView, step: DriverStep, input: DriverInput) -> bool {
    match step {
        DriverStep::CountPartitions => input is Count,
        DriverStep::DescribePartitions => input is Partitions,
        DriverStep::NegotiateVersion => input is Reply,
        DriverStep::ShareHeap => input is Finished,
        DriverStep::EnumerateDevices => input matches DriverInput::Reply(reply) && can_enumerate(
            d.offset,
            reply,
        ),
        DriverStep::GetDeviceInfo { .. } => input is Reply,
        DriverStep::StartSocket { .. } => input is Finished,
        DriverStep::Done(_) => false,
    }
}

/// What follows `step`, which returned `input`.
pub open spec fn driver_next(d: DriverInitView, step: DriverStep, input: DriverInput) -> (
    DriverInitView,
    DriverStep,
) {
    match (step, input) {
        (DriverStep::CountPartitions, DriverInput::Count(count)) => match count {
            Ok(n) => if n == 1 {
                (d, DriverStep::DescribePartitions)
            } else {
                (d, DriverStep::Done(Err(LkError::Generic)))
            },
            Err(e) => (d, DriverStep::Done(Err(e))),
        },
        (DriverStep::DescribePartitions, DriverInput::Partitions(ids)) => match ids {
            Ok(ids) => if ids@.len() > 0 {
                (
                    DriverInitView { receiver_id: ids@[0] as u32, ..d },
                    DriverStep::NegotiateVersion,
                )
            } else {
                (d, DriverStep::Done(Err(LkError::Generic)))
            },
            Err(e) => (d, DriverStep::Done(Err(e))),
        },
        (DriverStep::NegotiateVersion, DriverInput::Reply(reply)) => match reply_payload::<
            BusFfaVersionResp,
        >(reply, VIRTIO_MSG_FFA_BUS_VERSION) {
            Ok(_) => (d, DriverStep::ShareHeap),
            Err(e) => (d, DriverStep::Done(Err(e))),
        },
        (DriverStep::ShareHeap, DriverInput::Finished(result)) => match result {
            Ok(()) => (d, DriverStep::EnumerateDevices),
            Err(e) => (d, DriverStep::Done(Err(e))),
        },
        (DriverStep::EnumerateDevices, DriverInput::Reply(reply)) => match reply_payload_variable::<
            BusGetDevicesResp,
        >(reply, VIRTIO_MSG_BUS_GET_DEVICES) {
            Ok((page, bitmap)) => if is_valid_page(d.offset, page, bitmap) {
                let found = DriverInitView {
                    device_ids: d.device_ids + ids_in_bitmap(bitmap, d.offset, page.num as nat),
                    offset: page.next_offset,
                    ..d
                };
                if page.next_offset == 0 {
                    to_next_device(found)
                } else {
                    (found, DriverStep::EnumerateDevices)
                }
            } else {
                (d, DriverStep::Done(Err(LkError::InvalidArgs)))
            },
            Err(e) => (d, DriverStep::Done(Err(e))),
        },
        (DriverStep::GetDeviceInfo { dev_id }, DriverInput::Reply(reply)) => match reply_payload::<
            GetDeviceInfoResp,
        >(reply, VIRTIO_MSG_DEVICE_INFO) {
            Ok(info) => if info.device_id == VIRTIO_ID_VSOCK {
                (d, DriverStep::StartSocket { dev_id })
            } else {
                to_next_device(d)
            },
            Err(e) => (d, DriverStep::Done(Err(e))),
        },
        (DriverStep::StartSocket { .. }, DriverInput::Finished(result)) => match result {
            Ok(()) => to_next_device(d),
            Err(_) => (d, DriverStep::Done(Err(LkError::Generic))),
        },
        _ => (d, step),
    }
}

impl DriverInit {
    pub open spec fn wf(self) -> bool {
        self.walk.wf() && self.num_asked <= self.walk.device_ids@.len()
    }

    /// A driver that has not been set up, and the first step, which depends on how far FF-A has come.
    pub fn new(state: FFAInitState) -> (res: (DriverInit, DriverStep))
        ensures
            res.0.wf(),
            res.0@ == (DriverInitView {
                receiver_id: RECEIVER_ID_UNKNOWN,
                device_ids: seq![],
                offset: 0,
                num_asked: 0,
            }),
            res.1 == driver_first(state),
    {
        let init = DriverInit {
            receiver_id: RECEIVER_ID_UNKNOWN,
            walk: DeviceEnumeration::new(),
            num_asked: 0,
        };
        let step = match driver_init(state) {
            Ok(true) => DriverStep::CountPartitions,
            Ok(false) => DriverStep::Done(Ok(())),
            Err(e) => DriverStep::Done(Err(e)),
        };
        (init, step)
    }

    /// The version request: the driver offers the first version of the bus and of the messages, and
    /// one shared memory area.
    pub fn version_request() -> (req: VirtioMsgReq)
        ensures
            req.bytes() == request_msg(
                VIRTIO_MSG_FFA_BUS_VERSION,
                None,
                version_offer(VIRTIO_MSG_FFA_BUS_VERSION_1_0, VIRTIO_MSG_REVISION_1, 1).encode(),
            ),
    {
        VirtioMsgReq::new_bus_ffa_version(VIRTIO_MSG_FFA_BUS_VERSION_1_0, VIRTIO_MSG_REVISION_1, 1)
    }

    /// Goes on to the first device that has not been asked about.
    fn next_device(&mut self) -> (step: DriverStep)
        requires
            old(self).wf(),
        ensures
            final(self).wf(),
            (final(self)@, step) == to_next_device(old(self)@),
    {
        if self.num_asked < self.walk.device_ids.len() {
            let dev_id: u16 = self.walk.device_ids[self.num_asked];
            self.num_asked = self.num_asked + 1;
            DriverStep::GetDeviceInfo { dev_id }
        } else {
            DriverStep::Done(Ok(()))
        }
    }

    /// Whether the driver can go on with what a step returned (see [`is_input_of`]).
    pub fn can_resume(&self, step: DriverStep, input: &DriverInput) -> (res: bool)
        ensures
            res == is_input_of(self@, step, *input),
    {
        match (step, input) {
            (DriverStep::CountPartitions, DriverInput::Count(_)) => true,
            (DriverStep::DescribePartitions, DriverInput::Partitions(_)) => true,
            (DriverStep::NegotiateVersion, DriverInput::Reply(_)) => true,
            (DriverStep::ShareHeap, DriverInput::Finished(_)) => true,
            (DriverStep::EnumerateDevices, DriverInput::Reply(reply)) => self.walk.can_take(reply),
            (DriverStep::GetDeviceInfo { .. }, DriverInput::Reply(_)) => true,
            (DriverStep::StartSocket { .. }, DriverInput::Finished(_)) => true,
            _ => false,
        }
    }

    /// What follows a step.
    pub fn resume(&mut self, step: DriverStep, input: DriverInput) -> (next: DriverStep)
        requires
            old(self).wf(),
            is_input_of(old(self)@, step, input),
        ensures
            final(self).wf(),
            (final(self)@, next) == driver_next(old(self)@, step, input),
    {
        match (step, input) {
            (DriverStep::CountPartitions, DriverInput::Count(count)) => match count {
                Ok(1) => DriverStep::DescribePartitions,
                Ok(_) => DriverStep::Done(Err(LkError::Generic)),
                Err(e) => DriverStep::Done(Err(e)),
            },
            (DriverStep::DescribePartitions, DriverInput::Partitions(ids)) => match ids {
                Ok(ids) => match init_receiver_id(1, &ids) {
                    Ok(receiver_id) => {
                        self.receiver_id = receiver_id;
                        DriverStep::NegotiateVersion
                    },
                    Err(e) => DriverStep::Done(Err(e)),
                },
                Err(e) => DriverStep::Done(Err(e)),
            },
            (DriverStep::NegotiateVersion, DriverInput::Reply(reply)) => match negotiate_version(
                reply,
            ) {
                Ok(_) => DriverStep::ShareHeap,
                Err(e) => DriverStep::Done(Err(e)),
            },
            (DriverStep::ShareHeap, DriverInput::Finished(result)) => match result {
                Ok(()) => DriverStep::EnumerateDevices,
                Err(e) => DriverStep::Done(Err(e)),
            },
            (DriverStep::EnumerateDevices, DriverInput::Reply(reply)) => match self.walk.enumerate_devices(
                reply,
            ) {
                Ok(true) => self.next_device(),
                Ok(false) => DriverStep::EnumerateDevices,
                Err(e) => DriverStep::Done(Err(e)),
            },
            (DriverStep::GetDeviceInfo { dev_id }, DriverInput::Reply(reply)) => match init_device(
                dev_id,
                reply,
            ) {
                Ok(Some(_)) => DriverStep::StartSocket { dev_id },
                Ok(None) => self.next_device(),
                Err(e) => DriverStep::Done(Err(e)),
            },
            (DriverStep::StartSocket { .. }, DriverInput::Finished(result)) => match result {
                Ok(()) => self.next_device(),
                Err(_) => DriverStep::Done(Err(LkError::Generic)),
            },
            _ => step,
        }
    }
}

/// Only socket devices are started: a device is started if and only if it answered that it is a
/// socket device.
pub proof fn law_only_socket_devices_are_started(
    d: DriverInitView,
    step: DriverStep,
    input: DriverInput,
    dev_id: u16,
)
    requires
        is_input_of(d, step, input),
    ensures
        driver_next(d, step, input).1 == (DriverStep::StartSocket { dev_id }) <==> {
            &&& step == (DriverStep::GetDeviceInfo { dev_id })
            &&& input matches DriverInput::Reply(reply)
            &&& reply_payload::<GetDeviceInfoResp>(reply, VIRTIO_MSG_DEVICE_INFO) matches Ok(info)
            &&& info.device_id == VIRTIO_ID_VSOCK
        },
{
}

/// The devices are asked about one after the other in the order in which they were found, and the
/// driver is set up only when all of them have been.
pub proof fn law_every_device_is_asked_about(
    d: DriverInitView,
    step: DriverStep,
    input: DriverInput,
)
    requires
        is_input_of(d, step, input),
        d.num_asked <= d.device_ids.len(),
    ensures
        ({
            let (after, next) = driver_next(d, step, input);
            &&& next is GetDeviceInfo ==> {
                &&& after.num_asked == d.num_asked + 1
                &&& next->GetDeviceInfo_dev_id == after.device_ids[d.num_asked as int]
            }
            &&& !(next is GetDeviceInfo) ==> after.num_asked == d.num_asked
            &&& next == DriverStep::Done(Ok(())) ==> after.num_asked == after.device_ids.len()
        }),
{
}

/// How far a step is in the order of steps.
pub open spec fn step_order(step: DriverStep) -> nat {
    match step {
        DriverStep::CountPartitions => 0,
        DriverStep::DescribePartitions => 1,
        DriverStep::NegotiateVersion => 2,
        DriverStep::ShareHeap => 3,
        DriverStep::EnumerateDevices => 4,
        DriverStep::GetDeviceInfo { .. } => 5,
        DriverStep::StartSocket { .. } => 5,
        DriverStep::Done(_) => 6,
    }
}

/// The steps keep their order and none is left out: unless it fails, the driver finds its receiver,
/// negotiates the version, shares the heap, walks over the devices and asks about each of them.
pub proof fn law_steps_keep_their_order(d: DriverInitView, step: DriverStep, input: DriverInput)
    requires
        is_input_of(d, step, input),
    ensures
        ({
            let next = driver_next(d, step, input).1;
            ||| next matches DriverStep::Done(Err(_))
            ||| step_order(step) <= step_order(next) <= step_order(step) + 1
            ||| step is EnumerateDevices && next == DriverStep::Done(Ok(()))
        }),
{
}

/// How much is left to do within the same place in the order of steps.
pub open spec fn work_left(d: DriverInitView, step: DriverStep) -> int {
    match step {
        DriverStep::EnumerateDevices => u16::MAX - d.offset,
        DriverStep::GetDeviceInfo { .. } => 2 * (d.device_ids.len() - d.num_asked) + 1,
        DriverStep::StartSocket { .. } => 2 * (d.device_ids.len() - d.num_asked),
        _ => 0,
    }
}

/// Setting up the driver ends: every step is followed by one that is later in the order, or by one
/// with less left to do.
pub proof fn law_initialization_ends(d: DriverInitView, step: DriverStep, input: DriverInput)
    requires
        is_input_of(d, step, input),
        d.num_asked <= d.device_ids.len(),
    ensures
        ({
            let (after, next) = driver_next(d, step, input);
            ||| step_order(step) < step_order(next)
            ||| step_order(step) == step_order(next) && 0 <= work_left(after, next) < work_left(
                d,
                step,
            )
        }),
{
}

/// No request is sent before the receiver is known: once it is, its id has 16 bits.
pub proof fn law_receiver_is_known(d: DriverInitView, step: DriverStep, input: DriverInput)
    requires
        is_input_of(d, step, input),
        step_order(step) >= 2 ==> d.receiver_id <= u16::MAX,
    ensures
        ({
            let (after, next) = driver_next(d, step, input);
            2 <= step_order(next) < 6 ==> after.receiver_id <= u16::MAX
        }),
{
}

/// The reply that `device` gives to the request `m`.
pub open spec fn answered_by(device: DeviceView, m: Seq<u8>, input: DriverInput) -> bool {
    input matches DriverInput::Reply(Ok(buf)) && msg_bytes(buf@) == handle(device, m).message
}

/// A driver whose requests go to a device of this library agrees on a version with it, shares its
/// heap, finds device number zero, starts a socket device for it, and is set up then.
pub proof fn law_driver_starts_the_device(
    device: DeviceView,
    receiver_id: u32,
    version: DriverInput,
    page: DriverInput,
    info: DriverInput,
)
    requires
        answered_by(
            device,
            request_msg(
                VIRTIO_MSG_FFA_BUS_VERSION,
                None,
                version_offer(VIRTIO_MSG_FFA_BUS_VERSION_1_0, VIRTIO_MSG_REVISION_1, 1).encode(),
            ),
            version,
        ),
        answered_by(
            device,
            request_msg(
                VIRTIO_MSG_BUS_GET_DEVICES,
                None,
                (BusGetDevices { offset: 0, num: NUM_REQ_DEVICES }).encode(),
            ),
            page,
        ),
        answered_by(device, request_msg(VIRTIO_MSG_DEVICE_INFO, Some(0), seq![]), info),
    ensures
        ({
            let start = DriverInitView {
                receiver_id,
                device_ids: seq![],
                offset: 0,
                num_asked: 0,
            };
            let found = DriverInitView { device_ids: seq![0u16], num_asked: 1, ..start };
            let finished = DriverInput::Finished(Ok(()));
            let ask = DriverStep::GetDeviceInfo { dev_id: 0 };
            let begin = DriverStep::StartSocket { dev_id: 0 };
            &&& driver_next(start, DriverStep::NegotiateVersion, version) == (
                start,
                DriverStep::ShareHeap,
            )
            &&& driver_next(start, DriverStep::ShareHeap, finished) == (
                start,
                DriverStep::EnumerateDevices,
            )
            &&& is_input_of(start, DriverStep::EnumerateDevices, page)
            &&& driver_next(start, DriverStep::EnumerateDevices, page) == (found, ask)
            &&& driver_next(found, ask, info) == (found, begin)
            &&& driver_next(found, begin, finished) == (found, DriverStep::Done(Ok(())))
        }),
{
    lemma_version_answer(device, version->Reply_0);
    law_enumeration_of_a_device(device, page->Reply_0);
    lemma_info_answer(device, info->Reply_0);
    assert(Seq::<u16>::empty() + seq![0u16] =~= seq![0u16]);
}

proof fn lemma_version_answer(device: DeviceView, reply: Reply)
    requires
        reply matches Ok(buf) && msg_bytes(buf@) == handle(
            device,
            request_msg(
                VIRTIO_MSG_FFA_BUS_VERSION,
                None,
                version_offer(VIRTIO_MSG_FFA_BUS_VERSION_1_0, VIRTIO_MSG_REVISION_1, 1).encode(),
            ),
        ).message,
    ensures
        reply_payload::<BusFfaVersionResp>(reply, VIRTIO_MSG_FFA_BUS_VERSION) is Ok,
{
    let offer = version_offer(VIRTIO_MSG_FFA_BUS_VERSION_1_0, VIRTIO_MSG_REVISION_1, 1);
    offer.lemma_decode_encode(seq![]);
    lemma_request_msg(VIRTIO_MSG_FFA_BUS_VERSION, None, offer.encode());
    law_answers_are_responses(
        device,
        request_msg(VIRTIO_MSG_FFA_BUS_VERSION, None, offer.encode()),
    );
    law_version_exchange(device, VIRTIO_MSG_FFA_BUS_VERSION_1_0, VIRTIO_MSG_REVISION_1, 1);
}

proof fn lemma_info_answer(device: DeviceView, reply: Reply)
    requires
        reply matches Ok(buf) && msg_bytes(buf@) == handle(
            device,
            request_msg(VIRTIO_MSG_DEVICE_INFO, Some(0), seq![]),
        ).message,
    ensures
        reply_payload::<GetDeviceInfoResp>(reply, VIRTIO_MSG_DEVICE_INFO) matches Ok(info)
            && info.device_id == VIRTIO_ID_VSOCK,
{
    lemma_request_msg(VIRTIO_MSG_DEVICE_INFO, Some(0), seq![]);
    law_answers_are_responses(device, request_msg(VIRTIO_MSG_DEVICE_INFO, Some(0), seq![]));
    law_device_info_exchange(device);
}

} // verus!
