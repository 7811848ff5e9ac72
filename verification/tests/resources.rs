use batch_fft::cuda::{
    cudaError_t, cudaEvent_t, cudaMemcpyKind, cuda_device_synchronize,
    cuda_device_synchronize_call, CudaBuffer, CudaEvent,
};
use batch_fft::cufft::{cufftHandle, cufftResult, cufftType, CufftPlan, CUFFT_FORWARD};
use batch_fft::device::{DeviceCall, Output, ReleaseWarning, Reply};
use batch_fft::error::{Error, LocalError};
use num_complex::Complex32;

fn ok(output: Output) -> Reply {
    Reply { status: 0, output }
}

fn failed(status: i32) -> Reply {
    Reply { status, output: Output::Nothing }
}

#[test]
fn allocation_asks_for_len_times_element_size() {
    assert_eq!(
        CudaBuffer::<Complex32>::allocate_call(640),
        Ok(DeviceCall::Malloc { size: 5120 })
    );
    assert_eq!(CudaBuffer::<u8>::allocate_call(17), Ok(DeviceCall::Malloc { size: 17 }));
    assert_eq!(CudaBuffer::<u64>::allocate_call(0), Ok(DeviceCall::Malloc { size: 0 }));
    assert_eq!(
        CudaBuffer::<[u8; 3]>::allocate_call(5),
        Ok(DeviceCall::Malloc { size: 15 })
    );
}

#[test]
fn allocation_of_unrepresentable_size_is_rejected_locally() {
    assert_eq!(
        CudaBuffer::<Complex32>::allocate_call(usize::MAX),
        Err(Error::Local(LocalError::SizeOverflow))
    );
    assert_eq!(
        CudaBuffer::<Complex32>::allocate_call(usize::MAX / 8 + 1),
        Err(Error::Local(LocalError::SizeOverflow))
    );
    assert_eq!(
        CudaBuffer::<Complex32>::allocate_call(usize::MAX / 8),
        Ok(DeviceCall::Malloc { size: (usize::MAX / 8) * 8 })
    );
    assert!(matches!(
        CudaBuffer::<Complex32>::allocate(usize::MAX, ok(Output::Pointer(4096))),
        Err(Error::Local(LocalError::SizeOverflow))
    ));
}

#[test]
fn successful_allocation_gives_a_buffer() {
    let buffer = CudaBuffer::<Complex32>::allocate(640, ok(Output::Pointer(0x7000))).unwrap();
    assert_eq!(buffer.as_ptr(), 0x7000);
    assert_eq!(buffer.len(), 640);
}

#[test]
fn failed_allocation_gives_the_status_and_no_buffer() {
    let r = CudaBuffer::<Complex32>::allocate(640, failed(2));
    assert!(matches!(r, Err(Error::Runtime(cudaError_t::cudaErrorMemoryAllocation))));
    // The output of a failed call is not read.
    let r = CudaBuffer::<Complex32>::allocate(
        640,
        Reply { status: 1, output: Output::Pointer(0x7000) },
    );
    assert!(matches!(r, Err(Error::Runtime(cudaError_t::cudaErrorInvalidValue))));
    let r = CudaBuffer::<Complex32>::allocate(640, failed(77));
    assert!(matches!(r, Err(Error::Runtime(cudaError_t::cudaErrorOther(77)))));
}

#[test]
fn allocation_without_pointer_is_a_local_error() {
    let r = CudaBuffer::<Complex32>::allocate(640, ok(Output::Nothing));
    assert!(matches!(r, Err(Error::Local(LocalError::MissingOutput))));
    let r = CudaBuffer::<Complex32>::allocate(640, ok(Output::Millis(3)));
    assert!(matches!(r, Err(Error::Local(LocalError::MissingOutput))));
}

#[test]
fn upload_copies_the_whole_buffer_to_the_device() {
    let buffer = CudaBuffer::<Complex32>::allocate(640, ok(Output::Pointer(0x7000))).unwrap();
    assert_eq!(
        buffer.copy_from_host_call(640),
        Ok(DeviceCall::Memcpy {
            dst: 0x7000,
            count: 5120,
            kind: cudaMemcpyKind::cudaMemcpyHostToDevice,
        })
    );
}

#[test]
fn upload_of_another_length_is_rejected_before_any_call() {
    let mut buffer =
        CudaBuffer::<Complex32>::allocate(640, ok(Output::Pointer(0x7000))).unwrap();
    let mismatch = Error::Local(LocalError::SizeMismatch { expected: 640, actual: 639 });
    assert_eq!(buffer.copy_from_host_call(639), Err(mismatch));
    assert_eq!(buffer.copy_from_host(639, ok(Output::Nothing)), Err(mismatch));
    assert_eq!(
        buffer.copy_from_host_call(0),
        Err(Error::Local(LocalError::SizeMismatch { expected: 640, actual: 0 }))
    );
    assert_eq!(
        buffer.copy_from_host_call(641),
        Err(Error::Local(LocalError::SizeMismatch { expected: 640, actual: 641 }))
    );
    // The mismatch is reported as such, not as the foreign status.
    assert_eq!(buffer.copy_from_host(639, failed(1)), Err(mismatch));
}

#[test]
fn failed_upload_leaves_the_buffer_valid() {
    let mut buffer =
        CudaBuffer::<Complex32>::allocate(640, ok(Output::Pointer(0x7000))).unwrap();
    assert_eq!(buffer.copy_from_host(640, ok(Output::Nothing)), Ok(()));
    assert_eq!(
        buffer.copy_from_host(640, failed(1)),
        Err(Error::Runtime(cudaError_t::cudaErrorInvalidValue))
    );
    assert_eq!(buffer.as_ptr(), 0x7000);
    assert_eq!(buffer.len(), 640);
    assert_eq!(buffer.copy_from_host(640, ok(Output::Nothing)), Ok(()));
    assert_eq!(buffer.release(), DeviceCall::Free { dev_ptr: 0x7000 });
}

#[test]
fn buffer_release_frees_its_pointer() {
    let buffer = CudaBuffer::<u32>::allocate(3, ok(Output::Pointer(96))).unwrap();
    assert_eq!(buffer.release(), DeviceCall::Free { dev_ptr: 96 });
    assert_eq!(CudaBuffer::<u32>::released(ok(Output::Nothing)), None);
    assert_eq!(
        CudaBuffer::<u32>::released(failed(1)),
        Some(ReleaseWarning::Free(cudaError_t::cudaErrorInvalidValue))
    );
}

#[test]
fn event_is_created_from_a_successful_reply() {
    assert_eq!(CudaEvent::create_call(), DeviceCall::EventCreate);
    let event = CudaEvent::create(ok(Output::Event(cudaEvent_t(11)))).unwrap();
    assert_eq!(event.record_call(), DeviceCall::EventRecord { event: cudaEvent_t(11), stream: 0 });
    assert_eq!(
        event.synchronize_call(),
        DeviceCall::EventSynchronize { event: cudaEvent_t(11) }
    );
    assert_eq!(event.release(), DeviceCall::EventDestroy { event: cudaEvent_t(11) });
}

#[test]
fn event_creation_failure_is_propagated() {
    assert!(matches!(
        CudaEvent::create(failed(2)),
        Err(Error::Runtime(cudaError_t::cudaErrorMemoryAllocation))
    ));
    assert!(matches!(
        CudaEvent::create(Reply { status: 1, output: Output::Event(cudaEvent_t(11)) }),
        Err(Error::Runtime(cudaError_t::cudaErrorInvalidValue))
    ));
    assert!(matches!(
        CudaEvent::create(ok(Output::Pointer(11))),
        Err(Error::Local(LocalError::MissingOutput))
    ));
}

#[test]
fn event_operations_report_the_status() {
    let mut event = CudaEvent::create(ok(Output::Event(cudaEvent_t(5)))).unwrap();
    assert_eq!(event.record(ok(Output::Nothing)), Ok(()));
    assert_eq!(event.record(failed(1)), Err(cudaError_t::cudaErrorInvalidValue));
    assert_eq!(event.synchronize(ok(Output::Nothing)), Ok(()));
    assert_eq!(event.synchronize(failed(600)), Err(cudaError_t::cudaErrorOther(600)));
    assert_eq!(CudaEvent::released(ok(Output::Nothing)), None);
    assert_eq!(
        CudaEvent::released(failed(1)),
        Some(ReleaseWarning::EventDestroy(cudaError_t::cudaErrorInvalidValue))
    );
}

#[test]
fn elapsed_time_is_read_between_two_events() {
    let mut start = CudaEvent::create(ok(Output::Event(cudaEvent_t(1)))).unwrap();
    let mut stop = CudaEvent::create(ok(Output::Event(cudaEvent_t(2)))).unwrap();
    assert_eq!(start.record(ok(Output::Nothing)), Ok(()));
    assert_eq!(stop.record(ok(Output::Nothing)), Ok(()));
    assert_eq!(stop.synchronize(ok(Output::Nothing)), Ok(()));
    assert_eq!(
        start.elapsed_time_call(&stop),
        DeviceCall::EventElapsedTime { start: cudaEvent_t(1), end: cudaEvent_t(2) }
    );
    let bits = 1.5f32.to_bits();
    assert_eq!(start.elapsed_time(&stop, ok(Output::Millis(bits))), Ok(bits));
    assert_eq!(
        start.elapsed_time(&stop, Reply { status: 1, output: Output::Millis(bits) }),
        Err(Error::Runtime(cudaError_t::cudaErrorInvalidValue))
    );
    assert_eq!(
        start.elapsed_time(&stop, ok(Output::Nothing)),
        Err(Error::Local(LocalError::MissingOutput))
    );
}

#[test]
fn device_synchronization_reports_the_status() {
    assert_eq!(cuda_device_synchronize_call(), DeviceCall::DeviceSynchronize);
    assert_eq!(cuda_device_synchronize(ok(Output::Nothing)), Ok(()));
    assert_eq!(cuda_device_synchronize(failed(1)), Err(cudaError_t::cudaErrorInvalidValue));
    assert_eq!(cuda_device_synchronize(failed(4)), Err(cudaError_t::cudaErrorOther(4)));
}

#[test]
fn plan_is_set_up_for_contiguous_signals() {
    assert_eq!(
        CufftPlan::new_batch_1d_call(64, 10),
        Ok(DeviceCall::PlanMany {
            rank: 1,
            n: 64,
            inembed: None,
            istride: 1,
            idist: 64,
            onembed: None,
            ostride: 1,
            odist: 64,
            type_: cufftType::CUFFT_C2C,
            batch: 10,
        })
    );
    assert_eq!(
        CufftPlan::new_batch_1d_call(2147483647, 1),
        Ok(DeviceCall::PlanMany {
            rank: 1,
            n: 2147483647,
            inembed: None,
            istride: 1,
            idist: 2147483647,
            onembed: None,
            ostride: 1,
            odist: 2147483647,
            type_: cufftType::CUFFT_C2C,
            batch: 1,
        })
    );
}

#[test]
fn plan_sizes_beyond_the_foreign_integer_are_rejected_locally() {
    let overflow = Err(Error::Local(LocalError::SizeOverflow));
    assert_eq!(CufftPlan::new_batch_1d_call(2147483648, 1), overflow);
    assert_eq!(CufftPlan::new_batch_1d_call(1, 2147483648), overflow);
    assert_eq!(CufftPlan::new_batch_1d_call(usize::MAX, usize::MAX), overflow);
    assert!(matches!(
        CufftPlan::new_batch_1d(2147483648, 1, ok(Output::Plan(cufftHandle(1)))),
        Err(Error::Local(LocalError::SizeOverflow))
    ));
}

#[test]
fn plan_creation_interprets_the_reply() {
    let plan = CufftPlan::new_batch_1d(64, 10, ok(Output::Plan(cufftHandle(3)))).unwrap();
    assert_eq!(plan.length(), 64);
    assert_eq!(plan.batch(), 10);
    assert_eq!(plan.release(), DeviceCall::Destroy { plan: cufftHandle(3) });
    assert!(matches!(
        CufftPlan::new_batch_1d(64, 10, failed(2)),
        Err(Error::Plan(cufftResult::CUFFT_ALLOC_FAILED))
    ));
    assert!(matches!(
        CufftPlan::new_batch_1d(64, 10, Reply { status: 8, output: Output::Plan(cufftHandle(3)) }),
        Err(Error::Plan(cufftResult::CUFFT_INVALID_SIZE))
    ));
    assert!(matches!(
        CufftPlan::new_batch_1d(64, 10, ok(Output::Nothing)),
        Err(Error::Local(LocalError::MissingOutput))
    ));
}

#[test]
fn forward_execution_is_in_place() {
    let plan = CufftPlan::new_batch_1d(64, 10, ok(Output::Plan(cufftHandle(3)))).unwrap();
    let buffer = CudaBuffer::<Complex32>::allocate(640, ok(Output::Pointer(0x9000))).unwrap();
    assert_eq!(
        plan.execute_forward_call(&buffer),
        Ok(DeviceCall::ExecC2C {
            plan: cufftHandle(3),
            idata: 0x9000,
            odata: 0x9000,
            direction: CUFFT_FORWARD,
        })
    );
}

#[test]
fn execution_on_a_buffer_of_another_size_is_rejected_locally() {
    let plan = CufftPlan::new_batch_1d(64, 10, ok(Output::Plan(cufftHandle(3)))).unwrap();
    let short = CudaBuffer::<Complex32>::allocate(639, ok(Output::Pointer(0x9000))).unwrap();
    let long = CudaBuffer::<Complex32>::allocate(704, ok(Output::Pointer(0x9000))).unwrap();
    assert_eq!(
        plan.execute_forward_call(&short),
        Err(Error::Local(LocalError::SizeMismatch { expected: 640, actual: 639 }))
    );
    assert_eq!(
        plan.execute_forward_call(&long),
        Err(Error::Local(LocalError::SizeMismatch { expected: 640, actual: 704 }))
    );
    let large = CufftPlan::new_batch_1d(2147483647, 2147483647, ok(Output::Plan(cufftHandle(4))))
        .unwrap();
    assert_eq!(
        large.execute_forward_call(&short),
        Err(Error::Local(LocalError::SizeMismatch {
            expected: 4611686014132420609,
            actual: 639,
        }))
    );
}

#[test]
fn execution_is_followed_by_a_device_synchronization() {
    let plan = CufftPlan::new_batch_1d(64, 10, ok(Output::Plan(cufftHandle(3)))).unwrap();
    assert_eq!(plan.execute_forward(ok(Output::Nothing)), Ok(DeviceCall::DeviceSynchronize));
    assert_eq!(
        plan.execute_forward(failed(6)),
        Err(Error::Execution(cufftResult::CUFFT_EXEC_FAILED))
    );
    assert_eq!(plan.execute_forward_synchronized(ok(Output::Nothing)), Ok(()));
    assert_eq!(
        plan.execute_forward_synchronized(failed(1)),
        Err(Error::Synchronization(cudaError_t::cudaErrorInvalidValue))
    );
}

#[test]
fn plan_release_reports_a_warning_on_failure() {
    assert_eq!(CufftPlan::released(ok(Output::Nothing)), None);
    assert_eq!(
        CufftPlan::released(failed(1)),
        Some(ReleaseWarning::Destroy(cufftResult::CUFFT_INVALID_PLAN))
    );
    assert_eq!(
        CufftPlan::released(failed(12)),
        Some(ReleaseWarning::Destroy(cufftResult::CUFFT_OTHER(12)))
    );
}
