//! Status codes and transform plans of the transform library.

#![allow(non_camel_case_types)]

use crate::cuda::{spec_check, BufferModel, CudaBuffer};
use crate::decimal::{int_digits, push_int};
use crate::device::{DeviceCall, Output, ReleaseWarning, Reply};
use crate::error::{Error, LocalError};
use num_complex::Complex32;
use vstd::prelude::*;

verus! {

/// Handle of a plan of the transform library.
#[derive(Debug, Copy, Clone, PartialEq, Eq, Structural)]
pub struct cufftHandle(pub i32);

/// Outcome of a call into the transform library.
#[derive(Debug, Copy, Clone, PartialEq, Eq, Structural)]
pub enum cufftResult {
    CUFFT_SUCCESS,
    CUFFT_INVALID_PLAN,
    CUFFT_ALLOC_FAILED,
    CUFFT_INVALID_TYPE,
    CUFFT_INVALID_VALUE,
    CUFFT_INTERNAL_ERROR,
    CUFFT_EXEC_FAILED,
    CUFFT_SETUP_FAILED,
    CUFFT_INVALID_SIZE,
    CUFFT_UNALIGNED_DATA,
    /// A code that the library reported and that has no name here.
    CUFFT_OTHER(i32),
}

impl cufftResult {
    /// The value that `code` stands for.
    pub open spec fn spec_from_code(code: i32) -> cufftResult {
        if code == 0 {
            cufftResult::CUFFT_SUCCESS
        } else if code == 1 {
            cufftResult::CUFFT_INVALID_PLAN
        } else if code == 2 {
            cufftResult::CUFFT_ALLOC_FAILED
        } else if code == 3 {
            cufftResult::CUFFT_INVALID_TYPE
        } else if code == 4 {
            cufftResult::CUFFT_INVALID_VALUE
        } else if code == 5 {
            cufftResult::CUFFT_INTERNAL_ERROR
        } else if code == 6 {
            cufftResult::CUFFT_EXEC_FAILED
        } else if code == 7 {
            cufftResult::CUFFT_SETUP_FAILED
        } else if code == 8 {
            cufftResult::CUFFT_INVALID_SIZE
        } else if code == 9 {
            cufftResult::CUFFT_UNALIGNED_DATA
        } else {
            cufftResult::CUFFT_OTHER(code)
        }
    }

    /// The integer by which the library reports this value.
    pub open spec fn spec_code(self) -> i32 {
        match self {
            cufftResult::CUFFT_SUCCESS => 0,
            cufftResult::CUFFT_INVALID_PLAN => 1,
            cufftResult::CUFFT_ALLOC_FAILED => 2,
            cufftResult::CUFFT_INVALID_TYPE => 3,
            cufftResult::CUFFT_INVALID_VALUE => 4,
            cufftResult::CUFFT_INTERNAL_ERROR => 5,
            cufftResult::CUFFT_EXEC_FAILED => 6,
            cufftResult::CUFFT_SETUP_FAILED => 7,
            cufftResult::CUFFT_INVALID_SIZE => 8,
            cufftResult::CUFFT_UNALIGNED_DATA => 9,
            cufftResult::CUFFT_OTHER(code) => code,
        }
    }

    /// A value is well formed when a named code is held by its named variant.
    pub open spec fn wf(self) -> bool {
        self matches cufftResult::CUFFT_OTHER(code) ==> !(0 <= code <= 9)
    }

    /// Success is the one designated variant; every other value is a failure.
    pub open spec fn spec_is_success(self) -> bool {
        self == cufftResult::CUFFT_SUCCESS
    }

    /// The text that renders this value.
    pub open spec fn name(self) -> Seq<char> {
        match self {
            cufftResult::CUFFT_SUCCESS => "CUFFT_SUCCESS"@,
            cufftResult::CUFFT_INVALID_PLAN => "CUFFT_INVALID_PLAN"@,
            cufftResult::CUFFT_ALLOC_FAILED => "CUFFT_ALLOC_FAILED"@,
            cufftResult::CUFFT_INVALID_TYPE => "CUFFT_INVALID_TYPE"@,
            cufftResult::CUFFT_INVALID_VALUE => "CUFFT_INVALID_VALUE"@,
            cufftResult::CUFFT_INTERNAL_ERROR => "CUFFT_INTERNAL_ERROR"@,
            cufftResult::CUFFT_EXEC_FAILED => "CUFFT_EXEC_FAILED"@,
            cufftResult::CUFFT_SETUP_FAILED => "CUFFT_SETUP_FAILED"@,
            cufftResult::CUFFT_INVALID_SIZE => "CUFFT_INVALID_SIZE"@,
            cufftResult::CUFFT_UNALIGNED_DATA => "CUFFT_UNALIGNED_DATA"@,
            cufftResult::CUFFT_OTHER(code) => "cufftResult("@ + int_digits(code as int) + ")"@,
        }
    }

    /// Decodes the integer that a library call returned.
    #[verifier::when_used_as_spec(spec_from_code)]
    pub fn from_code(code: i32) -> (status: cufftResult)
        ensures
            status == Self::spec_from_code(code),
            status.wf(),
            status.spec_code() == code,
    {
        if code == 0 {
            cufftResult::CUFFT_SUCCESS
        } else if code == 1 {
            cufftResult::CUFFT_INVALID_PLAN
        } else if code == 2 {
            cufftResult::CUFFT_ALLOC_FAILED
        } else if code == 3 {
            cufftResult::CUFFT_INVALID_TYPE
        } else if code == 4 {
            cufftResult::CUFFT_INVALID_VALUE
        } else if code == 5 {
            cufftResult::CUFFT_INTERNAL_ERROR
        } else if code == 6 {
            cufftResult::CUFFT_EXEC_FAILED
        } else if code == 7 {
            cufftResult::CUFFT_SETUP_FAILED
        } else if code == 8 {
            cufftResult::CUFFT_INVALID_SIZE
        } else if code == 9 {
            cufftResult::CUFFT_UNALIGNED_DATA
        } else {
            cufftResult::CUFFT_OTHER(code)
        }
    }

    /// The integer by which the library reports this value.
    #[verifier::when_used_as_spec(spec_code)]
    pub fn code(self) -> (code: i32)
        ensures
            code == self.spec_code(),
    {
        match self {
            cufftResult::CUFFT_SUCCESS => 0,
            cufftResult::CUFFT_INVALID_PLAN => 1,
            cufftResult::CUFFT_ALLOC_FAILED => 2,
            cufftResult::CUFFT_INVALID_TYPE => 3,
            cufftResult::CUFFT_INVALID_VALUE => 4,
            cufftResult::CUFFT_INTERNAL_ERROR => 5,
            cufftResult::CUFFT_EXEC_FAILED => 6,
            cufftResult::CUFFT_SETUP_FAILED => 7,
            cufftResult::CUFFT_INVALID_SIZE => 8,
            cufftResult::CUFFT_UNALIGNED_DATA => 9,
            cufftResult::CUFFT_OTHER(code) => code,
        }
    }

    /// Whether the call succeeded.
    #[verifier::when_used_as_spec(spec_is_success)]
    pub fn is_success(self) -> (ok: bool)
        ensures
            ok == self.spec_is_success(),
    {
        match self {
            cufftResult::CUFFT_SUCCESS => true,
            _ => false,
        }
    }

    /// Renders the value: its name, or `cufftResult(n)` for an unnamed code `n`.
    pub fn to_string(&self) -> (text: String)
        ensures
            text@ == self.name(),
    {
        match *self {
            cufftResult::CUFFT_SUCCESS => String::from_str("CUFFT_SUCCESS"),
            cufftResult::CUFFT_INVALID_PLAN => String::from_str("CUFFT_INVALID_PLAN"),
            cufftResult::CUFFT_ALLOC_FAILED => String::from_str("CUFFT_ALLOC_FAILED"),
            cufftResult::CUFFT_INVALID_TYPE => String::from_str("CUFFT_INVALID_TYPE"),
            cufftResult::CUFFT_INVALID_VALUE => String::from_str("CUFFT_INVALID_VALUE"),
            cufftResult::CUFFT_INTERNAL_ERROR => String::from_str("CUFFT_INTERNAL_ERROR"),
            cufftResult::CUFFT_EXEC_FAILED => String::from_str("CUFFT_EXEC_FAILED"),
            cufftResult::CUFFT_SETUP_FAILED => String::from_str("CUFFT_SETUP_FAILED"),
            cufftResult::CUFFT_INVALID_SIZE => String::from_str("CUFFT_INVALID_SIZE"),
            cufftResult::CUFFT_UNALIGNED_DATA => String::from_str("CUFFT_UNALIGNED_DATA"),
            cufftResult::CUFFT_OTHER(code) => {
                let mut text = String::from_str("cufftResult(");
                push_int(&mut text, code);
                text.append(")");
                text
            },
        }
    }
}

/// Decoding and encoding are inverse to each other on well-formed values, and
/// a well-formed value is a success exactly when its code is zero.
pub proof fn lemma_cufft_code_round_trip(status: cufftResult, code: i32)
    ensures
        cufftResult::spec_from_code(code).spec_code() == code,
        cufftResult::spec_from_code(code).wf(),
        status.wf() ==> cufftResult::spec_from_code(status.spec_code()) == status,
        status.wf() ==> (status.spec_is_success() <==> status.spec_code() == 0),
{
}

/// Kind of transform that a plan computes.
#[derive(Debug, Copy, Clone, PartialEq, Eq, Structural)]
pub enum cufftType {
    /// Complex to complex, single precision.
    CUFFT_C2C,
}

impl cufftType {
    /// The integer by which the library knows this kind.
    pub open spec fn spec_code(self) -> i32 {
        0x29
    }

    /// The integer by which the library knows this kind.
    #[verifier::when_used_as_spec(spec_code)]
    pub fn code(self) -> (code: i32)
        ensures
            code == self.spec_code(),
    {
        0x29
    }
}

/// Direction argument of a forward transform.
pub const CUFFT_FORWARD: i32 = -1;

/// Direction argument of an inverse transform.
pub const CUFFT_INVERSE: i32 = 1;

/// The complex number type of `num_complex`, `num_complex::Complex<T>`. It is
/// the element type of the buffers that a plan works on and is never looked
/// into: nothing is claimed of its values.
#[verifier::external_type_specification]
#[verifier::external_body]
#[verifier::reject_recursive_types(T)]
pub struct ExComplex<T>(num_complex::Complex<T>);

/// What a plan is: its handle, the length of one transform, and the number of
/// transforms in the batch.
pub struct PlanModel {
    pub handle: cufftHandle,
    pub length: usize,
    pub batch: usize,
}

/// Owner of one plan for `batch` transforms of `length` complex elements
/// each, laid out back to back. Both numbers are fixed when the plan is made.
/// Releasing consumes the plan.
pub struct CufftPlan {
    handle: cufftHandle,
    length: usize,
    batch: usize,
}

impl View for CufftPlan {
    type V = PlanModel;

    closed spec fn view(&self) -> PlanModel {
        PlanModel { handle: self.handle, length: self.length, batch: self.batch }
    }
}

impl PlanModel {
    /// The number of elements that a buffer must hold for this plan.
    pub open spec fn elements(self) -> int {
        self.length * self.batch
    }
}

impl CufftPlan {
    /// Length and batch count are what the foreign interface was given.
    #[verifier::type_invariant]
    spec fn sizes_fit(self) -> bool {
        self.length <= i32::MAX && self.batch <= i32::MAX
    }

    /// The call that sets up `batch` transforms of `length` elements, one
    /// after the other in memory with unit stride, or the local error that
    /// the foreign interface cannot take these numbers.
    pub open spec fn spec_new_batch_1d_call(length: usize, batch: usize) -> Result<
        DeviceCall,
        Error,
    > {
        if length > i32::MAX || batch > i32::MAX {
            Err(Error::Local(LocalError::SizeOverflow))
        } else {
            Ok(
                DeviceCall::PlanMany {
                    rank: 1,
                    n: length as i32,
                    inembed: None,
                    istride: 1,
                    idist: length as i32,
                    onembed: None,
                    ostride: 1,
                    odist: length as i32,
                    type_: cufftType::CUFFT_C2C,
                    batch: batch as i32,
                },
            )
        }
    }

    /// The plan that a reply to the setup of `batch` transforms of `length`
    /// elements gives.
    pub open spec fn spec_new_batch_1d(length: usize, batch: usize, reply: Reply) -> Result<
        PlanModel,
        Error,
    > {
        if length > i32::MAX || batch > i32::MAX {
            Err(Error::Local(LocalError::SizeOverflow))
        } else if !reply.transform_status().spec_is_success() {
            Err(Error::Plan(reply.transform_status()))
        } else {
            match reply.output {
                Output::Plan(handle) => Ok(PlanModel { handle, length, batch }),
                _ => Err(Error::Local(LocalError::MissingOutput)),
            }
        }
    }

    /// The call that runs `plan` forward and in place on `buffer`, or the
    /// local error that the buffer does not hold exactly the elements of the
    /// batch.
    pub open spec fn spec_execute_forward_call(plan: PlanModel, buffer: BufferModel) -> Result<
        DeviceCall,
        Error,
    > {
        if plan.elements() != buffer.len {
            Err(
                Error::Local(
                    LocalError::SizeMismatch {
                        expected: plan.elements() as u64,
                        actual: buffer.len as u64,
                    },
                ),
            )
        } else {
            Ok(
                DeviceCall::ExecC2C {
                    plan: plan.handle,
                    idata: buffer.ptr,
                    odata: buffer.ptr,
                    direction: CUFFT_FORWARD,
                },
            )
        }
    }

    /// What a reply to the transform call says: on success the device has to
    /// be synchronized next, on failure the execution has failed.
    pub open spec fn spec_execute_forward(reply: Reply) -> Result<DeviceCall, Error> {
        if reply.transform_status().spec_is_success() {
            Ok(DeviceCall::DeviceSynchronize)
        } else {
            Err(Error::Execution(reply.transform_status()))
        }
    }

    /// What a reply to the synchronization after a transform says.
    pub open spec fn spec_execute_forward_synchronized(reply: Reply) -> Result<(), Error> {
        match spec_check(reply) {
            Ok(_) => Ok(()),
            Err(status) => Err(Error::Synchronization(status)),
        }
    }

    /// Builds the call that sets up a plan for `batch` transforms of `length`
    /// elements. Numbers that the foreign interface cannot take are rejected
    /// without a call.
    pub fn new_batch_1d_call(length: usize, batch: usize) -> (r: Result<DeviceCall, Error>)
        ensures
            r == Self::spec_new_batch_1d_call(length, batch),
    {
        if length > 0x7fff_ffff || batch > 0x7fff_ffff {
            return Err(Error::Local(LocalError::SizeOverflow));
        }
        let n: i32 = length as i32;
        Ok(
            DeviceCall::PlanMany {
                rank: 1,
                n,
                inembed: None,
                istride: 1,
                idist: n,
                onembed: None,
                ostride: 1,
                odist: n,
                type_: cufftType::CUFFT_C2C,
                batch: batch as i32,
            },
        )
    }

    /// Takes ownership of the plan that `reply` reports. On a failed status
    /// nothing was set up and the output is not read.
    pub fn new_batch_1d(length: usize, batch: usize, reply: Reply) -> (r: Result<Self, Error>)
        ensures
            crate::device::viewed(r) == Self::spec_new_batch_1d(length, batch, reply),
    {
        if length > 0x7fff_ffff || batch > 0x7fff_ffff {
            return Err(Error::Local(LocalError::SizeOverflow));
        }
        let status = cufftResult::from_code(reply.status);
        if !status.is_success() {
            return Err(Error::Plan(status));
        }
        match reply.output {
            Output::Plan(handle) => Ok(CufftPlan { handle, length, batch }),
            _ => Err(Error::Local(LocalError::MissingOutput)),
        }
    }

    /// The length of one transform.
    pub fn length(&self) -> (length: usize)
        ensures
            length == self@.length,
    {
        self.length
    }

    /// The number of transforms in the batch.
    pub fn batch(&self) -> (batch: usize)
        ensures
            batch == self@.batch,
    {
        self.batch
    }

    /// Builds the call that runs the plan forward and in place on `buffer`.
    /// A buffer that does not hold exactly `length * batch` elements is
    /// rejected without a call: the foreign side would not notice.
    pub fn execute_forward_call(&self, buffer: &CudaBuffer<Complex32>) -> (r: Result<
        DeviceCall,
        Error,
    >)
        ensures
            r == Self::spec_execute_forward_call(self@, buffer@),
    {
        proof {
            use_type_invariant(self);
        }
        let length: u64 = self.length as u64;
        let batch: u64 = self.batch as u64;
        assert(length * batch <= 0x3fff_ffff_0000_0001) by (nonlinear_arith)
            requires
                length <= 0x7fff_ffff,
                batch <= 0x7fff_ffff,
        ;
        let expected: u64 = length * batch;
        let actual: u64 = buffer.len() as u64;
        if expected != actual {
            return Err(Error::Local(LocalError::SizeMismatch { expected, actual }));
        }
        let ptr = buffer.as_ptr();
        Ok(
            DeviceCall::ExecC2C {
                plan: self.handle,
                idata: ptr,
                odata: ptr,
                direction: CUFFT_FORWARD,
            },
        )
    }

    /// Interprets the reply to the transform call. The transform is issued
    /// asynchronously, so on success the device is synchronized before the
    /// operation counts as done: the result is that call.
    pub fn execute_forward(&self, reply: Reply) -> (r: Result<DeviceCall, Error>)
        ensures
            r == Self::spec_execute_forward(reply),
    {
        let status = cufftResult::from_code(reply.status);
        if status.is_success() {
            Ok(DeviceCall::DeviceSynchronize)
        } else {
            Err(Error::Execution(status))
        }
    }

    /// Interprets the reply to the synchronization that ends a transform.
    pub fn execute_forward_synchronized(&self, reply: Reply) -> (r: Result<(), Error>)
        ensures
            r == Self::spec_execute_forward_synchronized(reply),
    {
        match crate::cuda::cuda_device_synchronize(reply) {
            Ok(()) => Ok(()),
            Err(status) => Err(Error::Synchronization(status)),
        }
    }

    /// Gives the plan up: the call that destroys it.
    pub fn release(self) -> (call: DeviceCall)
        ensures
            call == (DeviceCall::Destroy { plan: self@.handle }),
    {
        DeviceCall::Destroy { plan: self.handle }
    }

    /// Interprets the reply to a destruction: a failure is worth a warning
    /// and nothing more.
    pub fn released(reply: Reply) -> (warning: Option<ReleaseWarning>)
        ensures
            warning == (if reply.transform_status().spec_is_success() {
                None
            } else {
                Some(ReleaseWarning::Destroy(reply.transform_status()))
            }),
    {
        let status = cufftResult::from_code(reply.status);
        if status.is_success() {
            None
        } else {
            Some(ReleaseWarning::Destroy(status))
        }
    }
}

} // verus!
