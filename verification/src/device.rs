//! The foreign calls that the embedding program issues, and their replies.

use crate::cuda::{cudaError_t, cudaEvent_t, cudaMemcpyKind};
use crate::cufft::{cufftHandle, cufftResult, cufftType};
use vstd::prelude::*;

verus! {

/// One call into the accelerator runtime or the transform library, with the
/// arguments that this crate decides. Pointers into host memory are supplied
/// by the program that issues the call.
#[derive(Debug, Copy, Clone, PartialEq, Eq, Structural)]
pub enum DeviceCall {
    /// Allocate `size` bytes of device memory. Writes a device pointer.
    Malloc { size: usize },
    /// Release the allocation at `dev_ptr`.
    Free { dev_ptr: usize },
    /// Copy `count` bytes to `dst`, synchronously.
    Memcpy { dst: usize, count: usize, kind: cudaMemcpyKind },
    /// Block until the device has finished all work issued so far.
    DeviceSynchronize,
    /// Create an event. Writes an event handle.
    EventCreate,
    /// Record `event` in `stream`.
    EventRecord { event: cudaEvent_t, stream: usize },
    /// Block until the device has reached the point at which `event` was
    /// recorded.
    EventSynchronize { event: cudaEvent_t },
    /// Time from `start` to `end`. Writes milliseconds in single precision.
    EventElapsedTime { start: cudaEvent_t, end: cudaEvent_t },
    /// Destroy `event`.
    EventDestroy { event: cudaEvent_t },
    /// Set up a plan for `batch` transforms of `rank` dimensions and extent
    /// `n`. An embedding that is `None` is passed as a null pointer. Writes a
    /// plan handle.
    PlanMany {
        rank: i32,
        n: i32,
        inembed: Option<i32>,
        istride: i32,
        idist: i32,
        onembed: Option<i32>,
        ostride: i32,
        odist: i32,
        type_: cufftType,
        batch: i32,
    },
    /// Execute `plan` from `idata` to `odata` in the given direction.
    ExecC2C { plan: cufftHandle, idata: usize, odata: usize, direction: i32 },
    /// Destroy `plan`.
    Destroy { plan: cufftHandle },
}

/// The value that a call wrote through its output pointer.
#[derive(Debug, Copy, Clone, PartialEq, Eq, Structural)]
pub enum Output {
    /// The call has no output.
    Nothing,
    /// A pointer into device memory.
    Pointer(usize),
    /// An event handle.
    Event(cudaEvent_t),
    /// A plan handle.
    Plan(cufftHandle),
    /// The bits of a single-precision number of milliseconds.
    Millis(u32),
}

/// What came back from a call: its integer status and its output. The output
/// of a failed call is unspecified and is never looked at.
#[derive(Debug, Copy, Clone, PartialEq, Eq, Structural)]
pub struct Reply {
    pub status: i32,
    pub output: Output,
}

/// A resource of the foreign side that has to be released exactly once.
#[derive(Debug, Copy, Clone, PartialEq, Eq, Structural)]
pub enum Resource {
    Buffer(usize),
    Event(cudaEvent_t),
    Plan(cufftHandle),
}

/// A release that the foreign side reported as failed. It is handed to the
/// caller as a diagnostic and changes nothing else.
#[derive(Debug, Copy, Clone, PartialEq, Eq, Structural)]
pub enum ReleaseWarning {
    Free(cudaError_t),
    EventDestroy(cudaError_t),
    Destroy(cufftResult),
}

impl Reply {
    /// The runtime status that the reply carries.
    pub open spec fn runtime_status(self) -> cudaError_t {
        cudaError_t::spec_from_code(self.status)
    }

    /// The transform-library status that the reply carries.
    pub open spec fn transform_status(self) -> cufftResult {
        cufftResult::spec_from_code(self.status)
    }

    /// The resource that comes into being when `call` is answered by this
    /// reply: the output of a successful creating call.
    pub open spec fn acquires(self, call: DeviceCall) -> Option<Resource> {
        if self.status != 0 {
            None
        } else {
            match (call, self.output) {
                (DeviceCall::Malloc { .. }, Output::Pointer(p)) => Some(Resource::Buffer(p)),
                (DeviceCall::EventCreate, Output::Event(e)) => Some(Resource::Event(e)),
                (DeviceCall::PlanMany { .. }, Output::Plan(h)) => Some(Resource::Plan(h)),
                _ => None,
            }
        }
    }
}

impl DeviceCall {
    /// The resource that this call gives back to the foreign side.
    pub open spec fn releases(self) -> Option<Resource> {
        match self {
            DeviceCall::Free { dev_ptr } => Some(Resource::Buffer(dev_ptr)),
            DeviceCall::EventDestroy { event } => Some(Resource::Event(event)),
            DeviceCall::Destroy { plan } => Some(Resource::Plan(plan)),
            _ => None,
        }
    }

    /// Whether this call works on the resource `r`.
    pub open spec fn touches(self, r: Resource) -> bool {
        match self {
            DeviceCall::Malloc { .. } => false,
            DeviceCall::Free { dev_ptr } => r == Resource::Buffer(dev_ptr),
            DeviceCall::Memcpy { dst, .. } => r == Resource::Buffer(dst),
            DeviceCall::DeviceSynchronize => false,
            DeviceCall::EventCreate => false,
            DeviceCall::EventRecord { event, .. } => r == Resource::Event(event),
            DeviceCall::EventSynchronize { event } => r == Resource::Event(event),
            DeviceCall::EventElapsedTime { start, end } => r == Resource::Event(start) || r
                == Resource::Event(end),
            DeviceCall::EventDestroy { event } => r == Resource::Event(event),
            DeviceCall::PlanMany { .. } => false,
            DeviceCall::ExecC2C { plan, idata, odata, .. } => r == Resource::Plan(plan) || r
                == Resource::Buffer(idata) || r == Resource::Buffer(odata),
            DeviceCall::Destroy { plan } => r == Resource::Plan(plan),
        }
    }
}

impl ReleaseWarning {
    /// The text of the diagnostic.
    pub open spec fn message(self) -> Seq<char> {
        match self {
            ReleaseWarning::Free(status) => "Warning: cudaFree failed: "@ + status.name(),
            ReleaseWarning::EventDestroy(status) => "Warning: cudaEventDestroy failed: "@
                + status.name(),
            ReleaseWarning::Destroy(status) => "Warning: cufftDestroy failed: "@ + status.name(),
        }
    }

    /// Renders the diagnostic.
    pub fn to_string(&self) -> (text: String)
        ensures
            text@ == self.message(),
    {
        match *self {
            ReleaseWarning::Free(status) => {
                let mut text = String::from_str("Warning: cudaFree failed: ");
                let name = status.to_string();
                text.append(name.as_str());
                text
            },
            ReleaseWarning::EventDestroy(status) => {
                let mut text = String::from_str("Warning: cudaEventDestroy failed: ");
                let name = status.to_string();
                text.append(name.as_str());
                text
            },
            ReleaseWarning::Destroy(status) => {
                let mut text = String::from_str("Warning: cufftDestroy failed: ");
                let name = status.to_string();
                text.append(name.as_str());
                text
            },
        }
    }
}

/// Applies the view to the value of a successful result.
pub open spec fn viewed<A: View, E>(r: Result<A, E>) -> Result<A::V, E> {
    match r {
        Ok(a) => Ok(a@),
        Err(e) => Err(e),
    }
}

/// Applies the view to the value that an option holds.
pub open spec fn viewed_option<A: View>(o: Option<A>) -> Option<A::V> {
    match o {
        Some(a) => Some(a@),
        None => None,
    }
}

} // verus!
