//! Status codes, device buffers and timing events of the accelerator runtime.

#![allow(non_camel_case_types)]

use crate::decimal::{int_digits, push_int};
use crate::device::{DeviceCall, Output, ReleaseWarning, Reply};
use crate::error::{Error, LocalError};
use core::marker::PhantomData;
use vstd::layout::size_of;
use vstd::prelude::*;

verus! {

/// Outcome of a call into the accelerator runtime.
#[derive(Debug, Copy, Clone, PartialEq, Eq, Structural)]
pub enum cudaError_t {
    cudaSuccess,
    cudaErrorInvalidValue,
    cudaErrorMemoryAllocation,
    /// A code that the runtime reported and that has no name here.
    cudaErrorOther(i32),
}

impl cudaError_t {
    /// The value that `code` stands for.
    pub open spec fn spec_from_code(code: i32) -> cudaError_t {
        if code == 0 {
            cudaError_t::cudaSuccess
        } else if code == 1 {
            cudaError_t::cudaErrorInvalidValue
        } else if code == 2 {
            cudaError_t::cudaErrorMemoryAllocation
        } else {
            cudaError_t::cudaErrorOther(code)
        }
    }

    /// The integer by which the runtime reports this value.
    pub open spec fn spec_code(self) -> i32 {
        match self {
            cudaError_t::cudaSuccess => 0,
            cudaError_t::cudaErrorInvalidValue => 1,
            cudaError_t::cudaErrorMemoryAllocation => 2,
            cudaError_t::cudaErrorOther(code) => code,
        }
    }

    /// A value is well formed when a named code is held by its named variant.
    pub open spec fn wf(self) -> bool {
        self matches cudaError_t::cudaErrorOther(code) ==> code != 0 && code != 1 && code != 2
    }

    /// Success is the one designated variant; every other value is a failure.
    pub open spec fn spec_is_success(self) -> bool {
        self == cudaError_t::cudaSuccess
    }

    /// The text that renders this value.
    pub open spec fn name(self) -> Seq<char> {
        match self {
            cudaError_t::cudaSuccess => "cudaSuccess"@,
            cudaError_t::cudaErrorInvalidValue => "cudaErrorInvalidValue"@,
            cudaError_t::cudaErrorMemoryAllocation => "cudaErrorMemoryAllocation"@,
            cudaError_t::cudaErrorOther(code) => "cudaError("@ + int_digits(code as int) + ")"@,
        }
    }

    /// Decodes the integer that a runtime call returned.
    #[verifier::when_used_as_spec(spec_from_code)]
    pub fn from_code(code: i32) -> (status: cudaError_t)
        ensures
            status == Self::spec_from_code(code),
            status.wf(),
            status.spec_code() == code,
    {
        if code == 0 {
            cudaError_t::cudaSuccess
        } else if code == 1 {
            cudaError_t::cudaErrorInvalidValue
        } else if code == 2 {
            cudaError_t::cudaErrorMemoryAllocation
        } else {
            cudaError_t::cudaErrorOther(code)
        }
    }

    /// The integer by which the runtime reports this value.
    #[verifier::when_used_as_spec(spec_code)]
    pub fn code(self) -> (code: i32)
        ensures
            code == self.spec_code(),
    {
        match self {
            cudaError_t::cudaSuccess => 0,
            cudaError_t::cudaErrorInvalidValue => 1,
            cudaError_t::cudaErrorMemoryAllocation => 2,
            cudaError_t::cudaErrorOther(code) => code,
        }
    }

    /// Whether the call succeeded.
    #[verifier::when_used_as_spec(spec_is_success)]
    pub fn is_success(self) -> (ok: bool)
        ensures
            ok == self.spec_is_success(),
    {
        match self {
            cudaError_t::cudaSuccess => true,
            _ => false,
        }
    }

    /// Renders the value: its name, or `cudaError(n)` for an unnamed code `n`.
    pub fn to_string(&self) -> (text: String)
        ensures
            text@ == self.name(),
    {
        match *self {
            cudaError_t::cudaSuccess => String::from_str("cudaSuccess"),
            cudaError_t::cudaErrorInvalidValue => String::from_str("cudaErrorInvalidValue"),
            cudaError_t::cudaErrorMemoryAllocation => String::from_str(
                "cudaErrorMemoryAllocation",
            ),
            cudaError_t::cudaErrorOther(code) => {
                let mut text = String::from_str("cudaError(");
                push_int(&mut text, code);
                text.append(")");
                text
            },
        }
    }
}

/// Decoding and encoding are inverse to each other on well-formed values, and
/// a well-formed value is a success exactly when its code is zero.
pub proof fn lemma_cuda_code_round_trip(status: cudaError_t, code: i32)
    ensures
        cudaError_t::spec_from_code(code).spec_code() == code,
        cudaError_t::spec_from_code(code).wf(),
        status.wf() ==> cudaError_t::spec_from_code(status.spec_code()) == status,
        status.wf() ==> (status.spec_is_success() <==> status.spec_code() == 0),
{
}

/// Direction of a copy between host and device memory.
#[derive(Debug, Copy, Clone, PartialEq, Eq, Structural)]
pub enum cudaMemcpyKind {
    cudaMemcpyHostToDevice,
    cudaMemcpyDeviceToHost,
    cudaMemcpyDeviceToDevice,
}

impl cudaMemcpyKind {
    /// The integer by which the runtime knows this direction.
    pub open spec fn spec_code(self) -> i32 {
        match self {
            cudaMemcpyKind::cudaMemcpyHostToDevice => 1,
            cudaMemcpyKind::cudaMemcpyDeviceToHost => 2,
            cudaMemcpyKind::cudaMemcpyDeviceToDevice => 3,
        }
    }

    /// The integer by which the runtime knows this direction.
    #[verifier::when_used_as_spec(spec_code)]
    pub fn code(self) -> (code: i32)
        ensures
            code == self.spec_code(),
    {
        match self {
            cudaMemcpyKind::cudaMemcpyHostToDevice => 1,
            cudaMemcpyKind::cudaMemcpyDeviceToHost => 2,
            cudaMemcpyKind::cudaMemcpyDeviceToDevice => 3,
        }
    }
}

/// The stream that all work of this crate goes to: the default stream, which
/// the runtime knows as the null stream. There is no other, so the device
/// takes up recordings and transforms in the order in which they are issued.
pub const DEFAULT_STREAM: usize = 0;

/// Opaque handle of an event of the runtime.
#[derive(Debug, Copy, Clone, PartialEq, Eq, Structural)]
pub struct cudaEvent_t(pub usize);

/// What the reply to a runtime call without output says: nothing on success,
/// the status on failure.
pub open spec fn spec_check(reply: Reply) -> Result<(), cudaError_t> {
    if reply.runtime_status().spec_is_success() {
        Ok(())
    } else {
        Err(reply.runtime_status())
    }
}

/// Reads the status of the reply to a runtime call without output.
fn check(reply: Reply) -> (r: Result<(), cudaError_t>)
    ensures
        r == spec_check(reply),
{
    let status = cudaError_t::from_code(reply.status);
    if status.is_success() {
        Ok(())
    } else {
        Err(status)
    }
}

/// What a device buffer is: the device pointer of its allocation and the
/// number of elements that the allocation holds.
pub struct BufferModel {
    pub ptr: usize,
    pub len: usize,
}

/// Owner of one allocation of device memory that holds `len` elements of `T`.
/// The length is fixed when the buffer is made. Releasing consumes the
/// buffer, so that no allocation is released twice.
pub struct CudaBuffer<T> {
    ptr: usize,
    len: usize,
    elem: PhantomData<T>,
}

impl<T> View for CudaBuffer<T> {
    type V = BufferModel;

    closed spec fn view(&self) -> BufferModel {
        BufferModel { ptr: self.ptr, len: self.len }
    }
}

impl<T> CudaBuffer<T> {
    /// The byte size of the allocation is representable.
    #[verifier::type_invariant]
    spec fn size_fits(self) -> bool {
        self.len * size_of::<T>() <= usize::MAX
    }

    /// The call that allocates `len` elements, or the local error that such a
    /// size cannot be asked for.
    pub open spec fn spec_allocate_call(len: usize) -> Result<DeviceCall, Error> {
        if len * size_of::<T>() <= usize::MAX {
            Ok(DeviceCall::Malloc { size: (len * size_of::<T>()) as usize })
        } else {
            Err(Error::Local(LocalError::SizeOverflow))
        }
    }

    /// The buffer that a reply to the allocation of `len` elements gives.
    pub open spec fn spec_allocate(len: usize, reply: Reply) -> Result<BufferModel, Error> {
        if len * size_of::<T>() > usize::MAX {
            Err(Error::Local(LocalError::SizeOverflow))
        } else if !reply.runtime_status().spec_is_success() {
            Err(Error::Runtime(reply.runtime_status()))
        } else {
            match reply.output {
                Output::Pointer(ptr) => Ok(BufferModel { ptr, len }),
                _ => Err(Error::Local(LocalError::MissingOutput)),
            }
        }
    }

    /// The call that uploads `host_len` elements into `buffer`, or the local
    /// error that the two lengths differ.
    pub open spec fn spec_copy_from_host_call(buffer: BufferModel, host_len: usize) -> Result<
        DeviceCall,
        Error,
    > {
        if host_len != buffer.len {
            Err(
                Error::Local(
                    LocalError::SizeMismatch {
                        expected: buffer.len as u64,
                        actual: host_len as u64,
                    },
                ),
            )
        } else {
            Ok(
                DeviceCall::Memcpy {
                    dst: buffer.ptr,
                    count: (buffer.len * size_of::<T>()) as usize,
                    kind: cudaMemcpyKind::cudaMemcpyHostToDevice,
                },
            )
        }
    }

    /// What a reply to the upload of `host_len` elements into `buffer` says.
    pub open spec fn spec_copy_from_host(buffer: BufferModel, host_len: usize, reply: Reply)
        -> Result<(), Error> {
        if host_len != buffer.len {
            Err(
                Error::Local(
                    LocalError::SizeMismatch {
                        expected: buffer.len as u64,
                        actual: host_len as u64,
                    },
                ),
            )
        } else if !reply.runtime_status().spec_is_success() {
            Err(Error::Runtime(reply.runtime_status()))
        } else {
            Ok(())
        }
    }

    /// Builds the call that allocates device memory for `len` elements. A
    /// length whose byte size does not fit is rejected without a call.
    pub fn allocate_call(len: usize) -> (r: Result<DeviceCall, Error>)
        ensures
            r == Self::spec_allocate_call(len),
    {
        match len.checked_mul(core::mem::size_of::<T>()) {
            Some(size) => Ok(DeviceCall::Malloc { size }),
            None => Err(Error::Local(LocalError::SizeOverflow)),
        }
    }

    /// Takes ownership of the allocation that `reply` reports. On a failed
    /// status nothing was allocated and the output is not read.
    pub fn allocate(len: usize, reply: Reply) -> (r: Result<Self, Error>)
        ensures
            crate::device::viewed(r) == Self::spec_allocate(len, reply),
    {
        if len.checked_mul(core::mem::size_of::<T>()).is_none() {
            return Err(Error::Local(LocalError::SizeOverflow));
        }
        let status = cudaError_t::from_code(reply.status);
        if !status.is_success() {
            return Err(Error::Runtime(status));
        }
        match reply.output {
            Output::Pointer(ptr) => Ok(CudaBuffer { ptr, len, elem: PhantomData }),
            _ => Err(Error::Local(LocalError::MissingOutput)),
        }
    }

    /// Builds the call that copies `host_len` host elements into the buffer.
    /// A host length other than the buffer's is rejected without a call.
    pub fn copy_from_host_call(&self, host_len: usize) -> (r: Result<DeviceCall, Error>)
        ensures
            r == Self::spec_copy_from_host_call(self@, host_len),
    {
        if host_len != self.len {
            return Err(
                Error::Local(
                    LocalError::SizeMismatch { expected: self.len as u64, actual: host_len as u64 },
                ),
            );
        }
        proof {
            use_type_invariant(self);
        }
        Ok(
            DeviceCall::Memcpy {
                dst: self.ptr,
                count: self.len * core::mem::size_of::<T>(),
                kind: cudaMemcpyKind::cudaMemcpyHostToDevice,
            },
        )
    }

    /// Interprets the reply to an upload of `host_len` elements. Whatever the
    /// reply, the buffer stays as it is and must still be released.
    pub fn copy_from_host(&mut self, host_len: usize, reply: Reply) -> (r: Result<(), Error>)
        ensures
            r == Self::spec_copy_from_host(old(self)@, host_len, reply),
            final(self)@ == old(self)@,
    {
        if host_len != self.len {
            return Err(
                Error::Local(
                    LocalError::SizeMismatch { expected: self.len as u64, actual: host_len as u64 },
                ),
            );
        }
        match check(reply) {
            Ok(()) => Ok(()),
            Err(status) => Err(Error::Runtime(status)),
        }
    }

    /// The device pointer of the allocation.
    pub fn as_ptr(&self) -> (ptr: usize)
        ensures
            ptr == self@.ptr,
    {
        self.ptr
    }

    /// The number of elements that the allocation holds.
    pub fn len(&self) -> (len: usize)
        ensures
            len == self@.len,
    {
        self.len
    }

    /// Gives the buffer up: the call that frees its allocation.
    pub fn release(self) -> (call: DeviceCall)
        ensures
            call == (DeviceCall::Free { dev_ptr: self@.ptr }),
    {
        DeviceCall::Free { dev_ptr: self.ptr }
    }

    /// Interprets the reply to a free: a failure is worth a warning and
    /// nothing more.
    pub fn released(reply: Reply) -> (warning: Option<ReleaseWarning>)
        ensures
            warning == match spec_check(reply) {
                Ok(_) => None,
                Err(status) => Some(ReleaseWarning::Free(status)),
            },
    {
        match check(reply) {
            Ok(()) => None,
            Err(status) => Some(ReleaseWarning::Free(status)),
        }
    }
}

/// What a timing event is: its handle, whether it has been recorded, and
/// whether the device is known to have reached the point of that recording.
pub struct EventModel {
    pub handle: cudaEvent_t,
    pub recorded: bool,
    pub reached: bool,
}

impl EventModel {
    /// The event after a recording that `reply` answers. All recordings go to
    /// the one default stream, so they take effect in the order of the calls.
    pub open spec fn after_record(self, reply: Reply) -> EventModel {
        if spec_check(reply) is Ok {
            EventModel { handle: self.handle, recorded: true, reached: false }
        } else {
            self
        }
    }

    /// The event after a wait that `reply` answers.
    pub open spec fn after_synchronize(self, reply: Reply) -> EventModel {
        if spec_check(reply) is Ok {
            EventModel { handle: self.handle, recorded: self.recorded, reached: self.recorded }
        } else {
            self
        }
    }

    /// The event that a reply to a creating call gives.
    pub open spec fn spec_create(reply: Reply) -> Result<EventModel, Error> {
        if !reply.runtime_status().spec_is_success() {
            Err(Error::Runtime(reply.runtime_status()))
        } else {
            match reply.output {
                Output::Event(handle) => Ok(
                    EventModel { handle, recorded: false, reached: false },
                ),
                _ => Err(Error::Local(LocalError::MissingOutput)),
            }
        }
    }

    /// The elapsed time that a reply to a timing call gives, as the bits of a
    /// single-precision number of milliseconds.
    pub open spec fn spec_elapsed_time(reply: Reply) -> Result<u32, Error> {
        if !reply.runtime_status().spec_is_success() {
            Err(Error::Runtime(reply.runtime_status()))
        } else {
            match reply.output {
                Output::Millis(bits) => Ok(bits),
                _ => Err(Error::Local(LocalError::MissingOutput)),
            }
        }
    }
}

/// Owner of one event of the runtime. Releasing consumes the event.
pub struct CudaEvent {
    event: cudaEvent_t,
    recorded: Ghost<bool>,
    reached: Ghost<bool>,
}

impl View for CudaEvent {
    type V = EventModel;

    closed spec fn view(&self) -> EventModel {
        EventModel { handle: self.event, recorded: self.recorded@, reached: self.reached@ }
    }
}

impl CudaEvent {
    /// Builds the call that creates an event.
    pub fn create_call() -> (call: DeviceCall)
        ensures
            call == DeviceCall::EventCreate,
    {
        DeviceCall::EventCreate
    }

    /// Takes ownership of the event that `reply` reports. On a failed status
    /// nothing was created and the output is not read.
    pub fn create(reply: Reply) -> (r: Result<Self, Error>)
        ensures
            crate::device::viewed(r) == EventModel::spec_create(reply),
    {
        let status = cudaError_t::from_code(reply.status);
        if !status.is_success() {
            return Err(Error::Runtime(status));
        }
        match reply.output {
            Output::Event(event) => Ok(
                CudaEvent { event, recorded: Ghost(false), reached: Ghost(false) },
            ),
            _ => Err(Error::Local(LocalError::MissingOutput)),
        }
    }

    /// Builds the call that records the event in the default stream.
    pub fn record_call(&self) -> (call: DeviceCall)
        ensures
            call == (DeviceCall::EventRecord { event: self@.handle, stream: DEFAULT_STREAM }),
    {
        DeviceCall::EventRecord { event: self.event, stream: DEFAULT_STREAM }
    }

    /// Interprets the reply to a recording.
    pub fn record(&mut self, reply: Reply) -> (r: Result<(), cudaError_t>)
        ensures
            r == spec_check(reply),
            final(self)@ == old(self)@.after_record(reply),
    {
        let r = check(reply);
        if r.is_ok() {
            self.recorded = Ghost(true);
            self.reached = Ghost(false);
        }
        r
    }

    /// Builds the call that waits for the event.
    pub fn synchronize_call(&self) -> (call: DeviceCall)
        ensures
            call == (DeviceCall::EventSynchronize { event: self@.handle }),
    {
        DeviceCall::EventSynchronize { event: self.event }
    }

    /// Interprets the reply to a wait.
    pub fn synchronize(&mut self, reply: Reply) -> (r: Result<(), cudaError_t>)
        ensures
            r == spec_check(reply),
            final(self)@ == old(self)@.after_synchronize(reply),
    {
        let r = check(reply);
        if r.is_ok() {
            self.reached = Ghost(self.recorded@);
        }
        r
    }

    /// Builds the call that measures the time from this event to `end`. Both
    /// events have been recorded, and the device has reached `end`: the
    /// foreign side checks neither and answers with a meaningless duration
    /// otherwise.
    pub fn elapsed_time_call(&self, end: &CudaEvent) -> (call: DeviceCall)
        requires
            self@.recorded,
            end@.recorded,
            end@.reached,
        ensures
            call == (DeviceCall::EventElapsedTime { start: self@.handle, end: end@.handle }),
    {
        DeviceCall::EventElapsedTime { start: self.event, end: end.event }
    }

    /// Interprets the reply to a measurement from this event to `end`: the
    /// bits of the elapsed milliseconds in single precision.
    pub fn elapsed_time(&self, end: &CudaEvent, reply: Reply) -> (r: Result<u32, Error>)
        ensures
            r == EventModel::spec_elapsed_time(reply),
    {
        let status = cudaError_t::from_code(reply.status);
        if !status.is_success() {
            return Err(Error::Runtime(status));
        }
        match reply.output {
            Output::Millis(bits) => Ok(bits),
            _ => Err(Error::Local(LocalError::MissingOutput)),
        }
    }

    /// Gives the event up: the call that destroys it.
    pub fn release(self) -> (call: DeviceCall)
        ensures
            call == (DeviceCall::EventDestroy { event: self@.handle }),
    {
        DeviceCall::EventDestroy { event: self.event }
    }

    /// Interprets the reply to a destruction: a failure is worth a warning
    /// and nothing more.
    pub fn released(reply: Reply) -> (warning: Option<ReleaseWarning>)
        ensures
            warning == match spec_check(reply) {
                Ok(_) => None,
                Err(status) => Some(ReleaseWarning::EventDestroy(status)),
            },
    {
        match check(reply) {
            Ok(()) => None,
            Err(status) => Some(ReleaseWarning::EventDestroy(status)),
        }
    }
}

/// Builds the call that waits for the whole device.
pub fn cuda_device_synchronize_call() -> (call: DeviceCall)
    ensures
        call == DeviceCall::DeviceSynchronize,
{
    DeviceCall::DeviceSynchronize
}

/// Interprets the reply to a wait for the whole device.
pub fn cuda_device_synchronize(reply: Reply) -> (r: Result<(), cudaError_t>)
    ensures
        r == spec_check(reply),
{
    check(reply)
}

} // verus!
