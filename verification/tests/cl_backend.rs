use std::collections::HashMap;

use compute_shader::api::cl::call::{Argument, ClCall};
use compute_shader::api::gl::call::GlCall;
use compute_shader::api::surface::SurfaceCall;
use compute_shader::backend::Backend;
use compute_shader::buffer::{Buffer, BufferData, BufferFunctions, HostAllocatedData, Protection};
use compute_shader::device::Device;
use compute_shader::error::Error;
use compute_shader::image::{Color, ExternalImage, Format, Size2D};
use compute_shader::instance::{Instance, ShadingLanguage};
use compute_shader::native::{Call, Reply, Request, Step};
use compute_shader::queue::{Queue, Uniform};
use compute_shader::texture::ExternalTexture;

const SUCCESS: i32 = 0;
const FAILURE: i32 = -5;

/// A driver that keeps its objects in memory and counts what it makes and
/// what is released.
struct Driver {
    devices: Vec<(usize, Vec<u8>)>,
    renderer: Vec<u8>,
    next: usize,
    memory: HashMap<usize, Vec<u8>>,
    images: HashMap<usize, (u32, u32, usize, usize)>,
    arguments: HashMap<u32, Argument>,
    made: usize,
    released: usize,
    build_fails: bool,
    build_log: Vec<u8>,
    kernel_fails: bool,
    refuse_argument: Option<u32>,
    fail_everything: bool,
    no_surface: bool,
    surface_refuses: bool,
    start_time: u64,
    end_time: u64,
    calls: Vec<Call>,
    payloads: Vec<(Vec<usize>, Vec<u8>)>,
}

fn reply() -> Reply {
    Reply { integer: SUCCESS, object: 0, size: 0, time: 0, objects: Vec::new(), bytes: Vec::new() }
}

impl Driver {
    fn new() -> Driver {
        Driver {
            devices: vec![
                (11, b"Intel(R) HD Graphics\0".to_vec()),
                (22, b"NVIDIA GeForce GTX 1080\0".to_vec()),
            ],
            renderer: b"NVIDIA GeForce GTX 1080/PCIe/SSE2".to_vec(),
            next: 1000,
            memory: HashMap::new(),
            images: HashMap::new(),
            arguments: HashMap::new(),
            made: 0,
            released: 0,
            build_fails: false,
            build_log: b"<kernel>:1:1: error: unknown type name 'kernl'\0".to_vec(),
            kernel_fails: false,
            refuse_argument: None,
            fail_everything: false,
            no_surface: false,
            surface_refuses: false,
            start_time: 100,
            end_time: 350,
            calls: Vec::new(),
            payloads: Vec::new(),
        }
    }

    fn make(&mut self) -> usize {
        self.next += 1;
        self.made += 1;
        self.next
    }

    fn perform(&mut self, request: &Request) -> Reply {
        self.calls.push(request.call);
        self.payloads.push((request.wait_list.clone(), request.bytes.clone()));
        let mut answer = reply();
        if self.fail_everything {
            answer.integer = FAILURE;
            return answer;
        }
        match request.call {
            Call::Cl(call) => self.perform_cl(call, request, &mut answer),
            Call::Gl(GlCall::GetString { name }) => {
                assert_eq!(name, 0x1F01);
                answer.bytes = self.renderer.clone();
            }
            Call::Gl(_) => {}
            Call::Surface(SurfaceCall::Create { .. }) if self.no_surface => {}
            Call::Surface(SurfaceCall::Create { width, height, bytes_per_element }) => {
                let surface = self.make();
                let bytes = width as usize * height as usize * bytes_per_element as usize;
                self.memory.insert(surface, vec![0; bytes]);
                answer.object = surface;
            }
            Call::Surface(SurfaceCall::Release { surface }) => {
                assert!(self.memory.remove(&surface).is_some(), "a surface is released once");
                self.released += 1;
            }
            Call::Surface(SurfaceCall::BindToGlTexture { .. }) => {
                if self.surface_refuses {
                    answer.integer = 10004;
                }
            }
        }
        answer
    }

    fn perform_cl(&mut self, call: ClCall, request: &Request, answer: &mut Reply) {
        match call {
            ClCall::GetDeviceCount { device_type } => {
                assert_eq!(device_type, 4);
                answer.size = self.devices.len();
                if self.devices.is_empty() {
                    answer.integer = FAILURE;
                }
            }
            ClCall::GetDeviceIds { device_type, count } => {
                assert_eq!(device_type, 4);
                assert_eq!(count as usize, self.devices.len());
                answer.objects = self.devices.iter().map(|device| device.0).collect();
            }
            ClCall::GetDeviceInfoSize { device, parameter } => {
                assert_eq!(parameter, 0x102B);
                answer.size = self.devices.iter().find(|d| d.0 == device).unwrap().1.len();
            }
            ClCall::GetDeviceInfo { device, parameter, size } => {
                assert_eq!(parameter, 0x102B);
                let name = &self.devices.iter().find(|d| d.0 == device).unwrap().1;
                assert_eq!(size, name.len());
                answer.bytes = name.clone();
            }
            ClCall::CreateContext { .. } => answer.object = self.make(),
            ClCall::GetContextInfo { parameter, .. } => {
                assert_eq!(parameter, 0x1081);
                answer.object = 22;
            }
            ClCall::CreateCommandQueue { properties, .. } => {
                assert_eq!(properties, 2);
                answer.object = self.make();
            }
            ClCall::CreateProgramWithSource { .. } => answer.object = self.make(),
            ClCall::BuildProgram { .. } => {
                if self.build_fails {
                    answer.integer = FAILURE;
                }
            }
            ClCall::GetProgramBuildInfo { parameter, capacity, size, .. } => {
                assert_eq!(parameter, 0x1183);
                assert_eq!(capacity, 65536);
                assert_eq!(size, 65535);
                let mut buffer = vec![0u8; capacity];
                buffer[..self.build_log.len()].copy_from_slice(&self.build_log);
                answer.bytes = buffer;
                answer.size = self.build_log.len();
            }
            ClCall::CreateKernelsInProgram { .. } => {
                if self.kernel_fails {
                    answer.integer = FAILURE;
                } else {
                    answer.object = self.make();
                }
            }
            ClCall::GetKernelInfo { parameter, kernel } => {
                assert_eq!(parameter, 0x1194);
                answer.object = kernel - 1;
            }
            ClCall::CreateBuffer { flags, size, .. } => {
                let contents = if flags & 0x20 != 0 {
                    assert_eq!(request.bytes.len(), size);
                    request.bytes.clone()
                } else {
                    assert!(request.bytes.is_empty());
                    vec![0xAA; size]
                };
                let buffer = self.make();
                self.memory.insert(buffer, contents);
                answer.object = buffer;
            }
            ClCall::CreateImageFromSurface {
                channel_order, channel_data_type, width, height, surface, ..
            } => {
                if width == 0 || height == 0 {
                    answer.integer = FAILURE;
                } else {
                    let image = self.make();
                    let backing = self.memory[&surface].clone();
                    self.memory.insert(image, backing);
                    self.images.insert(image, (channel_order, channel_data_type, width, height));
                    answer.object = image;
                }
            }
            ClCall::GetImageInfo { image, parameter } => match self.images.get(&image) {
                Some(found) => {
                    answer.size = match parameter {
                        0x1114 => found.2,
                        0x1115 => found.3,
                        0x1116 => 0,
                        _ => panic!("an unknown image parameter"),
                    }
                }
                None => answer.integer = FAILURE,
            },
            ClCall::GetImageFormat { image } => match self.images.get(&image) {
                Some(found) => answer.objects = vec![found.0 as usize, found.1 as usize],
                None => answer.integer = FAILURE,
            },
            ClCall::SetKernelArg { index, size, value, .. } => {
                match value {
                    Argument::Memory(_) => assert_eq!(size, std::mem::size_of::<usize>()),
                    Argument::U32(_) => assert_eq!(size, 4),
                    Argument::UVec4(..) => assert_eq!(size, 16),
                }
                if self.refuse_argument == Some(index) {
                    answer.integer = FAILURE;
                } else {
                    self.arguments.insert(index, value);
                }
            }
            ClCall::EnqueueNdRangeKernel { dimensions, global_work_size, .. } => {
                assert!(1 <= dimensions && dimensions <= 3);
                assert!(global_work_size.0 > 0);
                if let (Some(Argument::Memory(target)), Some(Argument::U32(value))) =
                    (self.arguments.get(&0), self.arguments.get(&1))
                {
                    for byte in self.memory.get_mut(target).unwrap().iter_mut() {
                        *byte = *value as u8;
                    }
                }
                answer.object = self.make();
            }
            ClCall::EnqueueFillImage { image, color, region, .. } => {
                let found = self.images[&image];
                assert_eq!(region, (found.2, found.3, 1));
                for byte in self.memory.get_mut(&image).unwrap().iter_mut() {
                    *byte = color.0 as u8;
                }
                answer.object = self.make();
            }
            ClCall::EnqueueReadBuffer { buffer, blocking, offset, size, .. } => {
                assert_eq!(blocking, 1);
                let contents = &self.memory[&buffer];
                if offset + size > contents.len() {
                    answer.integer = FAILURE;
                } else {
                    answer.bytes = contents[offset..offset + size].to_vec();
                    answer.object = self.make();
                }
            }
            ClCall::EnqueueMarker { .. } => answer.object = self.make(),
            ClCall::Flush { .. } | ClCall::Finish { .. } | ClCall::WaitForEvents { .. } => {}
            ClCall::GetEventProfilingInfo { parameter, .. } => {
                answer.time = match parameter {
                    0x1282 => self.start_time,
                    0x1283 => self.end_time,
                    _ => panic!("an unknown profiling parameter"),
                }
            }
            ClCall::ReleaseMemObject { memory } => {
                assert!(self.memory.remove(&memory).is_some(), "a memory object is released once");
                self.images.remove(&memory);
                self.released += 1;
            }
            ClCall::ReleaseContext { .. }
            | ClCall::ReleaseCommandQueue { .. }
            | ClCall::ReleaseKernel { .. }
            | ClCall::ReleaseProgram { .. }
            | ClCall::ReleaseEvent { .. } => self.released += 1,
        }
    }
}

/// Drives an operation to its end: performs each call that it asks for and
/// hands it all the replies so far.
fn run<T>(driver: &mut Driver, mut next: impl FnMut(&[Reply]) -> Step<T>) -> Result<T, Error> {
    let mut replies: Vec<Reply> = Vec::new();
    loop {
        match next(&replies) {
            Step::Call(request) => {
                let answer = driver.perform(&request);
                replies.push(answer);
            }
            Step::Done(result) => return result,
        }
        assert!(replies.len() < 100_000, "the operation ends");
    }
}

fn open(driver: &mut Driver) -> (Instance, Device) {
    let instance = Instance::new(Backend::Cl).unwrap();
    let device = run(driver, |replies| instance.open_device(replies)).unwrap();
    (instance, device)
}

fn open_queue(driver: &mut Driver) -> (Instance, Device, Queue) {
    let (instance, device) = open(driver);
    let queue = run(driver, |replies| device.create_queue(replies)).unwrap();
    (instance, device, queue)
}

#[test]
fn the_device_that_renders_is_opened() {
    let mut driver = Driver::new();
    let (instance, device) = open(&mut driver);
    assert_eq!(instance.shading_language(), ShadingLanguage::Cl);
    assert!(device.data() != 0);
    assert!(matches!(device.functions.backend, Backend::Cl));
    assert!(driver.calls.iter().any(|call| matches!(
        call,
        Call::Cl(ClCall::CreateContext { device: 22 })
    )));
    assert!(!driver.calls.iter().any(|call| matches!(
        call,
        Call::Cl(ClCall::CreateContext { device: 11 })
    )));
    assert_eq!(driver.calls.len(), 8);
}

#[test]
fn the_first_device_is_opened_where_none_matches_better() {
    let mut driver = Driver::new();
    driver.renderer = b"llvmpipe".to_vec();
    driver.devices = vec![(5, b"qqq\0".to_vec()), (6, b"www\0".to_vec()), (7, b"zzz\0".to_vec())];
    let (_, device) = open(&mut driver);
    assert!(device.data() != 0);
    assert!(matches!(driver.calls.last(), Some(Call::Cl(ClCall::CreateContext { device: 5 }))));
}

#[test]
fn no_device_is_a_failure() {
    let mut driver = Driver::new();
    driver.devices.clear();
    let instance = Instance::new(Backend::Cl).unwrap();
    let result = run(&mut driver, |replies| instance.open_device(replies));
    assert!(matches!(result, Err(Error::Failed)));
    assert_eq!(driver.calls.len(), 1);
}

#[test]
fn a_driver_that_fails_opens_no_device() {
    let mut driver = Driver::new();
    driver.fail_everything = true;
    let instance = Instance::new(Backend::Cl).unwrap();
    let result = run(&mut driver, |replies| instance.open_device(replies));
    assert!(matches!(result, Err(Error::Failed)));
}

#[test]
fn an_uninitialized_buffer_has_the_size_asked_for() {
    for size in [0usize, 1, 4096, 1_000_000] {
        let mut driver = Driver::new();
        let (_, device, queue) = open_queue(&mut driver);
        let buffer = run(&mut driver, |replies| {
            device.create_buffer(Protection::ReadWrite, BufferData::Uninitialized(size), replies)
        })
        .unwrap();
        assert_eq!(driver.memory[&buffer.data()].len(), size);
        let mut dest = vec![0u8; size];
        let event = run(&mut driver, |replies| {
            queue.submit_read_buffer(&mut dest, &buffer, 0, &[], replies)
        });
        assert!(event.is_ok());
        assert!(dest.iter().all(|byte| *byte == 0xAA));
        let mut too_long = vec![0u8; size + 1];
        let event = run(&mut driver, |replies| {
            queue.submit_read_buffer(&mut too_long, &buffer, 0, &[], replies)
        });
        assert!(matches!(event, Err(Error::Failed)));
        assert!(too_long.iter().all(|byte| *byte == 0));
    }
}

#[test]
fn host_data_come_back_as_they_were_given() {
    for size in [0usize, 1, 4096, 1_000_000] {
        let input: Vec<u8> = (0..size).map(|i| (i * 31 + 7) as u8).collect();
        let mut driver = Driver::new();
        let (_, device, queue) = open_queue(&mut driver);
        let buffer = run(&mut driver, |replies| {
            let data = BufferData::HostAllocated(HostAllocatedData::new(&input));
            device.create_buffer(Protection::ReadOnly, data, replies)
        })
        .unwrap();
        let mut dest = vec![0u8; size];
        run(&mut driver, |replies| queue.submit_read_buffer(&mut dest, &buffer, 0, &[], replies))
            .unwrap();
        assert_eq!(dest, input);
    }
}

#[test]
fn a_buffer_is_read_from_the_start_given() {
    let input: Vec<u8> = (0..100u8).collect();
    let mut driver = Driver::new();
    let (_, device, queue) = open_queue(&mut driver);
    let buffer = run(&mut driver, |replies| {
        let data = BufferData::HostAllocated(HostAllocatedData::new(&input));
        device.create_buffer(Protection::ReadOnly, data, replies)
    })
    .unwrap();
    let mut dest = vec![0u8; 10];
    run(&mut driver, |replies| queue.submit_read_buffer(&mut dest, &buffer, 40, &[], replies))
        .unwrap();
    assert_eq!(dest, (40..50u8).collect::<Vec<u8>>());
}

#[test]
fn buffer_flags_follow_protection_and_data() {
    let mut driver = Driver::new();
    let (_, device) = open(&mut driver);
    let before = driver.calls.len();
    run(&mut driver, |replies| {
        device.create_buffer(Protection::WriteOnly, BufferData::Uninitialized(16), replies)
    })
    .unwrap();
    let bytes = [9u8; 3];
    run(&mut driver, |replies| {
        let data = BufferData::HostAllocated(HostAllocatedData::new(&bytes));
        device.create_buffer(Protection::ReadOnly, data, replies)
    })
    .unwrap();
    let context = device.data();
    assert!(matches!(
        driver.calls[before],
        Call::Cl(ClCall::CreateBuffer { context: c, flags: 0x2, size: 16 }) if c == context
    ));
    assert!(matches!(
        driver.calls[before + 1],
        Call::Cl(ClCall::CreateBuffer { context: c, flags: 0x24, size: 3 }) if c == context
    ));
    assert_eq!(driver.payloads[before + 1].1, bytes.to_vec());
}

#[test]
fn an_image_reports_what_it_was_made_with() {
    for format in [Format::R8, Format::RGBA8, Format::R32F] {
        let mut driver = Driver::new();
        let (_, device) = open(&mut driver);
        let size = Size2D::new(37, 21);
        let image = run(&mut driver, |replies| {
            device.create_image(format, Protection::ReadWrite, &size, replies)
        })
        .unwrap();
        assert_eq!(run(&mut driver, |replies| image.width(replies)).unwrap(), 37);
        assert_eq!(run(&mut driver, |replies| image.height(replies)).unwrap(), 21);
        assert_eq!(run(&mut driver, |replies| image.format(replies)).unwrap(), format);
        assert!(matches!(image.functions.backend, Backend::Cl));
    }
}

#[test]
fn an_image_that_cannot_be_made_leaves_no_surface() {
    let mut driver = Driver::new();
    let (_, device) = open(&mut driver);
    let made = driver.made;
    let released = driver.released;
    let size = Size2D::new(0, 4);
    let result = run(&mut driver, |replies| {
        device.create_image(Format::R8, Protection::ReadWrite, &size, replies)
    });
    assert!(matches!(result, Err(Error::Failed)));
    assert_eq!(driver.made - made, 1);
    assert_eq!(driver.released - released, 1);
    assert!(matches!(driver.calls.last(), Some(Call::Surface(SurfaceCall::Release { .. }))));
}

#[test]
fn a_dispatch_fills_the_image() {
    let (width, height) = (8u32, 5u32);
    let mut driver = Driver::new();
    let (_, device, queue) = open_queue(&mut driver);
    let size = Size2D::new(width, height);
    let image = run(&mut driver, |replies| {
        device.create_image(Format::R8, Protection::WriteOnly, &size, replies)
    })
    .unwrap();
    let program = run(&mut driver, |replies| device.create_program("kernel", replies)).unwrap();
    let event = run(&mut driver, |replies| {
        let uniforms = [(0, Uniform::Image(&image)), (1, Uniform::U32(0x5C))];
        queue.submit_compute(&program, &[width, height], &uniforms, &[], replies)
    })
    .unwrap();
    assert!(event.data() != 0);
    let store = Buffer::from_raw_data(image.data()[0], BufferFunctions { backend: Backend::Cl });
    let mut dest = vec![0u8; (width * height) as usize];
    run(&mut driver, |replies| queue.submit_read_buffer(&mut dest, &store, 0, &[], replies))
        .unwrap();
    assert!(dest.iter().all(|byte| *byte == 0x5C));
}

#[test]
fn a_dispatch_binds_then_enqueues() {
    let mut driver = Driver::new();
    let (_, device, queue) = open_queue(&mut driver);
    let program = run(&mut driver, |replies| device.create_program("kernel", replies)).unwrap();
    let buffer = run(&mut driver, |replies| {
        device.create_buffer(Protection::ReadWrite, BufferData::Uninitialized(4), replies)
    })
    .unwrap();
    let marker = run(&mut driver, |replies| queue.submit_sync_event(replies)).unwrap();
    let before = driver.calls.len();
    let marker_data = marker.data();
    let events = [marker];
    run(&mut driver, |replies| {
        let uniforms = [
            (3, Uniform::Buffer(&buffer)),
            (1, Uniform::U32(77)),
            (2, Uniform::UVec4([1, 2, 3, 4])),
        ];
        queue.submit_compute(&program, &[6, 7], &uniforms, &events, replies)
    })
    .unwrap();
    let kernel = program.data();
    let calls = &driver.calls[before..];
    assert_eq!(calls.len(), 4);
    assert!(matches!(
        calls[0],
        Call::Cl(ClCall::SetKernelArg { kernel: k, index: 3, value: Argument::Memory(m), .. })
            if k == kernel && m == buffer.data()
    ));
    assert!(matches!(
        calls[1],
        Call::Cl(ClCall::SetKernelArg { index: 1, size: 4, value: Argument::U32(77), .. })
    ));
    assert!(matches!(
        calls[2],
        Call::Cl(ClCall::SetKernelArg { index: 2, size: 16, value: Argument::UVec4(1, 2, 3, 4), .. })
    ));
    assert!(matches!(
        calls[3],
        Call::Cl(ClCall::EnqueueNdRangeKernel {
            queue: q, kernel: k, dimensions: 2, global_work_size: (6, 7, 0)
        }) if q == queue.data() && k == kernel
    ));
    assert_eq!(driver.payloads[before + 3].0, vec![marker_data]);
}

#[test]
fn a_refused_argument_aborts_the_dispatch() {
    let mut driver = Driver::new();
    let (_, device, queue) = open_queue(&mut driver);
    let program = run(&mut driver, |replies| device.create_program("kernel", replies)).unwrap();
    driver.refuse_argument = Some(9);
    let before = driver.calls.len();
    let result = run(&mut driver, |replies| {
        let uniforms = [(0, Uniform::U32(1)), (9, Uniform::U32(2)), (1, Uniform::U32(3))];
        queue.submit_compute(&program, &[1], &uniforms, &[], replies)
    });
    assert!(matches!(result, Err(Error::Failed)));
    assert_eq!(driver.calls.len() - before, 2);
    let again = run(&mut driver, |replies| queue.flush(replies));
    assert!(again.is_ok());
}

#[test]
fn a_grid_that_cannot_be_dispatched_asks_for_nothing() {
    let mut driver = Driver::new();
    let (_, device, queue) = open_queue(&mut driver);
    let program = run(&mut driver, |replies| device.create_program("kernel", replies)).unwrap();
    let before = driver.calls.len();
    for groups in [&[][..], &[0][..], &[4, 0][..], &[1, 2, 3, 4][..]] {
        let result = run(&mut driver, |replies| {
            queue.submit_compute(&program, groups, &[(0, Uniform::U32(1))], &[], replies)
        });
        assert!(matches!(result, Err(Error::Failed)));
    }
    assert_eq!(driver.calls.len(), before);
}

#[test]
fn a_clear_fills_the_whole_image() {
    let mut driver = Driver::new();
    let (_, device, queue) = open_queue(&mut driver);
    let size = Size2D::new(6, 3);
    let image = run(&mut driver, |replies| {
        device.create_image(Format::R8, Protection::ReadWrite, &size, replies)
    })
    .unwrap();
    let before = driver.calls.len();
    let color = Color::UInt(200, 1, 2, 3);
    run(&mut driver, |replies| queue.submit_clear(&image, &color, &[], replies)).unwrap();
    assert!(matches!(
        driver.calls[before + 3],
        Call::Cl(ClCall::EnqueueFillImage { color: (200, 1, 2, 3), region: (6, 3, 1), .. })
    ));
    assert!(driver.memory[&image.data()[0]].iter().all(|byte| *byte == 200));
}

#[test]
fn a_sync_event_before_finish_is_reached() {
    let mut driver = Driver::new();
    let (_, device, queue) = open_queue(&mut driver);
    let program = run(&mut driver, |replies| device.create_program("kernel", replies)).unwrap();
    for _ in 0..3 {
        run(&mut driver, |replies| {
            queue.submit_compute(&program, &[2, 2, 2], &[(0, Uniform::U32(1))], &[], replies)
        })
        .unwrap();
    }
    let event = run(&mut driver, |replies| queue.submit_sync_event(replies)).unwrap();
    assert!(run(&mut driver, |replies| queue.finish(replies)).is_ok());
    assert!(run(&mut driver, |replies| event.wait(replies)).is_ok());
    assert!(matches!(event.functions.backend, Backend::Cl));
}

#[test]
fn the_time_of_an_operation_is_the_difference() {
    let mut driver = Driver::new();
    let (_, device, queue) = open_queue(&mut driver);
    let program = run(&mut driver, |replies| device.create_program("kernel", replies)).unwrap();
    let event = run(&mut driver, |replies| {
        queue.submit_compute(&program, &[1], &[], &[], replies)
    })
    .unwrap();
    assert_eq!(run(&mut driver, |replies| event.time_elapsed(replies)).unwrap(), 250);
    assert_eq!(run(&mut driver, |replies| event.time_elapsed(replies)).unwrap(), 250);
    driver.start_time = u64::MAX - 1;
    driver.end_time = u64::MAX;
    assert_eq!(run(&mut driver, |replies| event.time_elapsed(replies)).unwrap(), 1);
    driver.start_time = 10;
    driver.end_time = 9;
    let result = run(&mut driver, |replies| event.time_elapsed(replies));
    assert!(matches!(result, Err(Error::Failed)));
}

#[test]
fn a_source_that_does_not_build_gives_its_log() {
    let mut driver = Driver::new();
    let (_, device) = open(&mut driver);
    driver.build_fails = true;
    let made = driver.made;
    let released = driver.released;
    let before = driver.calls.len();
    let result = run(&mut driver, |replies| device.create_program("kernl void f() {}", replies));
    match result {
        Err(Error::CompileFailed(message)) => {
            assert_eq!(message, "<kernel>:1:1: error: unknown type name 'kernl'");
        }
        _ => panic!("the build failed"),
    }
    assert_eq!(driver.payloads[before].1, b"kernl void f() {}".to_vec());
    assert_eq!(driver.made - made, 1);
    assert_eq!(driver.released - released, 1);
    assert!(matches!(driver.calls.last(), Some(Call::Cl(ClCall::ReleaseProgram { .. }))));
}

#[test]
fn a_log_that_is_no_text_gives_an_empty_message() {
    let mut driver = Driver::new();
    let (_, device) = open(&mut driver);
    driver.build_fails = true;
    driver.build_log = vec![0xff, 0xfe, 0xfd];
    let result = run(&mut driver, |replies| device.create_program("source", replies));
    assert!(matches!(result, Err(Error::CompileFailed(ref message)) if message.is_empty()));
}

#[test]
fn a_program_without_kernel_is_released() {
    let mut driver = Driver::new();
    let (_, device) = open(&mut driver);
    driver.kernel_fails = true;
    let made = driver.made;
    let released = driver.released;
    let result = run(&mut driver, |replies| device.create_program("source", replies));
    assert!(matches!(result, Err(Error::Failed)));
    assert_eq!(driver.made - made, driver.released - released);
}

#[test]
fn every_handle_is_released_once() {
    let mut driver = Driver::new();
    let (instance, device, queue) = open_queue(&mut driver);
    let program = run(&mut driver, |replies| device.create_program("kernel", replies)).unwrap();
    let buffer = run(&mut driver, |replies| {
        device.create_buffer(Protection::ReadWrite, BufferData::Uninitialized(64), replies)
    })
    .unwrap();
    let size = Size2D::new(4, 4);
    let image = run(&mut driver, |replies| {
        device.create_image(Format::RGBA8, Protection::ReadWrite, &size, replies)
    })
    .unwrap();
    let texture = run(&mut driver, |replies| {
        device.create_texture(Format::R8, Protection::ReadOnly, &size, replies)
    })
    .unwrap();
    let sync = run(&mut driver, |replies| queue.submit_sync_event(replies)).unwrap();
    let profile = run(&mut driver, |replies| {
        queue.submit_compute(&program, &[1], &[], &[], replies)
    })
    .unwrap();
    assert_eq!(driver.made, 11);
    assert_eq!(driver.released, 0);

    run(&mut driver, |replies| profile.destroy(replies)).unwrap();
    run(&mut driver, |replies| sync.destroy(replies)).unwrap();
    run(&mut driver, |replies| texture.destroy(replies)).unwrap();
    run(&mut driver, |replies| image.destroy(replies)).unwrap();
    run(&mut driver, |replies| buffer.destroy(replies)).unwrap();
    run(&mut driver, |replies| program.destroy(replies)).unwrap();
    run(&mut driver, |replies| queue.destroy(replies)).unwrap();
    run(&mut driver, |replies| device.destroy(replies)).unwrap();
    run(&mut driver, |replies| instance.destroy(replies)).unwrap();
    assert_eq!(driver.released, driver.made);
    assert!(driver.memory.is_empty());
}

#[test]
fn an_image_is_bound_to_an_external_texture() {
    let mut driver = Driver::new();
    let (_, device) = open(&mut driver);
    let size = Size2D::new(320, 240);
    let image = run(&mut driver, |replies| {
        device.create_image(Format::R32F, Protection::ReadWrite, &size, replies)
    })
    .unwrap();
    let before = driver.calls.len();
    run(&mut driver, |replies| image.bind_to(&ExternalImage::GlTexture(42), replies)).unwrap();
    let calls = &driver.calls[before..];
    assert_eq!(calls.len(), 6);
    assert!(matches!(calls[3], Call::Gl(GlCall::ActiveTexture { unit: 0x84C0 })));
    assert!(matches!(calls[4], Call::Gl(GlCall::BindTexture { target: 0x84F5, texture: 42 })));
    assert!(matches!(
        calls[5],
        Call::Surface(SurfaceCall::BindToGlTexture {
            surface: s, width: 320, height: 240, internal_format: 0x822E, format: 0x1903,
            pixel_type: 0x1406,
        }) if s == image.data()[1]
    ));
}

#[test]
fn a_texture_is_bound_in_its_own_format() {
    let mut driver = Driver::new();
    let (_, device) = open(&mut driver);
    let size = Size2D::new(16, 8);
    let texture = run(&mut driver, |replies| {
        device.create_texture(Format::R8, Protection::ReadWrite, &size, replies)
    })
    .unwrap();
    assert_eq!(run(&mut driver, |replies| texture.width(replies)).unwrap(), 16);
    assert_eq!(run(&mut driver, |replies| texture.height(replies)).unwrap(), 8);
    run(&mut driver, |replies| texture.bind_to(&ExternalTexture::Gl(7), replies)).unwrap();
    assert!(matches!(
        driver.calls.last(),
        Some(Call::Surface(SurfaceCall::BindToGlTexture {
            width: 16, height: 8, internal_format: 0x8229, format: 0x1903, pixel_type: 0x1401, ..
        }))
    ));
    let colors = run(&mut driver, |replies| {
        device.create_texture(Format::RGBA8, Protection::ReadWrite, &size, replies)
    })
    .unwrap();
    run(&mut driver, |replies| colors.bind_to(&ExternalTexture::Gl(8), replies)).unwrap();
    assert!(matches!(
        driver.calls.last(),
        Some(Call::Surface(SurfaceCall::BindToGlTexture {
            internal_format: 0x8058, format: 0x1908, pixel_type: 0x1401, ..
        }))
    ));
}

#[test]
fn a_failing_driver_fails_every_operation_alone() {
    let mut driver = Driver::new();
    let (_, device, queue) = open_queue(&mut driver);
    let buffer = run(&mut driver, |replies| {
        device.create_buffer(Protection::ReadWrite, BufferData::Uninitialized(4), replies)
    })
    .unwrap();
    driver.fail_everything = true;
    assert!(matches!(run(&mut driver, |replies| queue.flush(replies)), Err(Error::Failed)));
    assert!(matches!(run(&mut driver, |replies| queue.finish(replies)), Err(Error::Failed)));
    assert!(matches!(
        run(&mut driver, |replies| queue.submit_sync_event(replies)),
        Err(Error::Failed)
    ));
    assert!(matches!(run(&mut driver, |replies| device.create_queue(replies)), Err(Error::Failed)));
    assert!(matches!(
        run(&mut driver, |replies| device.create_program("source", replies)),
        Err(Error::Failed)
    ));
    assert!(matches!(
        run(&mut driver, |replies| {
            device.create_buffer(Protection::ReadWrite, BufferData::Uninitialized(4), replies)
        }),
        Err(Error::Failed)
    ));
    let mut dest = [7u8; 4];
    assert!(matches!(
        run(&mut driver, |replies| queue.submit_read_buffer(&mut dest, &buffer, 0, &[], replies)),
        Err(Error::Failed)
    ));
    assert_eq!(dest, [7u8; 4]);
    driver.fail_everything = false;
    assert!(run(&mut driver, |replies| queue.flush(replies)).is_ok());
}

#[test]
fn a_surface_that_cannot_be_bound_is_a_failure() {
    let mut driver = Driver::new();
    let (_, device) = open(&mut driver);
    let size = Size2D::new(4, 4);
    let image = run(&mut driver, |replies| {
        device.create_image(Format::R8, Protection::ReadWrite, &size, replies)
    })
    .unwrap();
    let texture = run(&mut driver, |replies| {
        device.create_texture(Format::R8, Protection::ReadWrite, &size, replies)
    })
    .unwrap();
    driver.surface_refuses = true;
    let result = run(&mut driver, |replies| image.bind_to(&ExternalImage::GlTexture(1), replies));
    assert!(matches!(result, Err(Error::Failed)));
    let result = run(&mut driver, |replies| texture.bind_to(&ExternalTexture::Gl(2), replies));
    assert!(matches!(result, Err(Error::Failed)));
    driver.surface_refuses = false;
    assert!(run(&mut driver, |replies| image.bind_to(&ExternalImage::GlTexture(1), replies)).is_ok());
}

#[test]
fn no_surface_is_no_image() {
    let mut driver = Driver::new();
    let (_, device) = open(&mut driver);
    driver.no_surface = true;
    let before = driver.calls.len();
    let (made, released) = (driver.made, driver.released);
    let size = Size2D::new(4, 4);
    let result = run(&mut driver, |replies| {
        device.create_image(Format::R8, Protection::ReadWrite, &size, replies)
    });
    assert!(matches!(result, Err(Error::Failed)));
    assert_eq!(driver.calls.len(), before + 1);
    assert_eq!((driver.made, driver.released), (made, released));
}

#[test]
fn a_clear_of_an_image_that_the_driver_does_not_know_fails() {
    let mut driver = Driver::new();
    let (_, device, queue) = open_queue(&mut driver);
    let size = Size2D::new(4, 4);
    let image = run(&mut driver, |replies| {
        device.create_image(Format::R8, Protection::ReadWrite, &size, replies)
    })
    .unwrap();
    let memory = image.data()[0];
    let known = driver.images.remove(&memory).unwrap();
    let before = driver.calls.len();
    let color = Color::UInt(1, 2, 3, 4);
    let result = run(&mut driver, |replies| queue.submit_clear(&image, &color, &[], replies));
    assert!(matches!(result, Err(Error::Failed)));
    assert_eq!(driver.calls.len(), before + 1);
    assert!(driver.memory[&memory].iter().all(|byte| *byte == 0));
    let result = run(&mut driver, |replies| image.bind_to(&ExternalImage::GlTexture(1), replies));
    assert!(matches!(result, Err(Error::Failed)));
    driver.images.insert(memory, known);
    assert!(run(&mut driver, |replies| queue.submit_clear(&image, &color, &[], replies)).is_ok());
}
