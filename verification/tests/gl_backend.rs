use std::collections::HashMap;

use compute_shader::api::gl::call::GlCall;
use compute_shader::backend::Backend;
use compute_shader::buffer::{Buffer, BufferData, BufferFunctions, HostAllocatedData, Protection};
use compute_shader::device::Device;
use compute_shader::error::Error;
use compute_shader::image::{Color, ExternalImage, Format, Size2D};
use compute_shader::instance::{Instance, ShadingLanguage};
use compute_shader::native::{Call, Reply, Request, Step};
use compute_shader::queue::{Queue, Uniform};
use compute_shader::texture::ExternalTexture;

/// A graphics context that keeps its objects in memory and counts what it
/// generates and what is deleted.
struct Context {
    next: usize,
    buffers: HashMap<u32, Vec<u8>>,
    textures: HashMap<u32, (u32, u32, i32, i32, Vec<u8>)>,
    bound_buffer: HashMap<u32, u32>,
    bound_texture: HashMap<u32, u32>,
    storage: HashMap<u32, u32>,
    images: HashMap<u32, u32>,
    numbers: HashMap<i32, u32>,
    attached: HashMap<u32, u32>,
    made: usize,
    deleted: usize,
    compile_fails: bool,
    link_fails: bool,
    log: Vec<u8>,
    elapsed: u64,
    error: i32,
    locations: i32,
    out_of_memory: bool,
    out_of_names: bool,
    clear_fails: bool,
    wait_result: i32,
    calls: Vec<Call>,
    payloads: Vec<Vec<u8>>,
}

const INVALID_VALUE: i32 = 0x0501;
const INVALID_OPERATION: i32 = 0x0502;
const OUT_OF_MEMORY: i32 = 0x0505;

impl Context {
    fn new() -> Context {
        Context {
            next: 0,
            buffers: HashMap::new(),
            textures: HashMap::new(),
            bound_buffer: HashMap::new(),
            bound_texture: HashMap::new(),
            storage: HashMap::new(),
            images: HashMap::new(),
            numbers: HashMap::new(),
            attached: HashMap::new(),
            made: 0,
            deleted: 0,
            compile_fails: false,
            link_fails: false,
            log: b"0:1(1): error: syntax error".to_vec(),
            elapsed: 123_456,
            error: 0,
            locations: 16,
            out_of_memory: false,
            out_of_names: false,
            clear_fails: false,
            wait_result: 0x911A,
            calls: Vec::new(),
            payloads: Vec::new(),
        }
    }

    fn make(&mut self) -> usize {
        if self.out_of_names {
            return 0;
        }
        self.next += 1;
        self.made += 1;
        self.next
    }

    fn log_into(&self, max_length: i32, capacity: usize) -> Vec<u8> {
        assert_eq!(max_length as usize, self.log.len() + 1);
        assert_eq!(capacity, self.log.len() + 2);
        let mut buffer = vec![0u8; capacity];
        buffer[..self.log.len()].copy_from_slice(&self.log);
        buffer
    }

    fn perform(&mut self, request: &Request) -> Reply {
        self.calls.push(request.call);
        self.payloads.push(request.bytes.clone());
        assert!(request.wait_list.is_empty());
        let mut answer = Reply {
            integer: 0,
            object: 0,
            size: 0,
            time: 0,
            objects: Vec::new(),
            bytes: Vec::new(),
        };
        let call = match request.call {
            Call::Gl(call) => call,
            _ => panic!("this backend calls the graphics API only"),
        };
        match call {
            GlCall::GetError => {
                answer.integer = self.error;
                self.error = 0;
            }
            GlCall::CreateShader { kind } => {
                assert_eq!(kind, 0x91B9);
                answer.object = self.make();
            }
            GlCall::ShaderSource { length, .. } => assert_eq!(length as usize, request.bytes.len()),
            GlCall::GetShaderiv { parameter, .. } => {
                answer.integer = match parameter {
                    0x8B81 => (!self.compile_fails) as i32,
                    0x8B84 => self.log.len() as i32 + 1,
                    _ => panic!("an unknown shader parameter"),
                }
            }
            GlCall::GetShaderInfoLog { max_length, capacity, .. } => {
                answer.bytes = self.log_into(max_length, capacity);
            }
            GlCall::CreateProgram => answer.object = self.make(),
            GlCall::AttachShader { program, shader } => {
                self.attached.insert(program, shader);
            }
            GlCall::GetProgramiv { parameter, .. } => {
                answer.integer = match parameter {
                    0x8B82 => (!self.link_fails) as i32,
                    0x8B84 => self.log.len() as i32 + 1,
                    _ => panic!("an unknown program parameter"),
                }
            }
            GlCall::GetProgramInfoLog { max_length, capacity, .. } => {
                answer.bytes = self.log_into(max_length, capacity);
            }
            GlCall::GetAttachedShaders { program } => {
                answer.object = self.attached[&program] as usize;
            }
            GlCall::DeleteShader { .. } | GlCall::DeleteProgram { .. } => self.deleted += 1,
            GlCall::GenBuffers | GlCall::GenTextures | GlCall::GenQueries => {
                answer.object = self.make();
            }
            GlCall::BindBuffer { target, buffer } => {
                self.bound_buffer.insert(target, buffer);
            }
            GlCall::BufferData { usage, .. } if self.out_of_memory => {
                assert_eq!(usage, 0x88E8);
                self.error = OUT_OF_MEMORY;
            }
            GlCall::BufferData { target, size, initialized, usage } => {
                assert_eq!(usage, 0x88E8);
                let contents = if initialized {
                    assert_eq!(request.bytes.len(), size as usize);
                    request.bytes.clone()
                } else {
                    assert!(request.bytes.is_empty());
                    vec![0xBB; size as usize]
                };
                self.buffers.insert(self.bound_buffer[&target], contents);
            }
            GlCall::BindBufferBase { target, index, buffer } => {
                assert_eq!(target, 0x90D2);
                if index as i32 >= self.locations {
                    self.error = INVALID_VALUE;
                } else {
                    self.storage.insert(index, buffer);
                }
            }
            GlCall::GetBufferSubData { target, offset, size } => {
                let contents = &self.buffers[&self.bound_buffer[&target]];
                let (offset, size) = (offset as usize, size as usize);
                if offset + size <= contents.len() {
                    answer.bytes = contents[offset..offset + size].to_vec();
                } else {
                    answer.bytes = vec![0; size];
                    self.error = INVALID_VALUE;
                }
            }
            GlCall::DeleteBuffers { buffer } => {
                self.buffers.remove(&buffer);
                self.deleted += 1;
            }
            GlCall::BindTexture { target, texture } => {
                self.bound_texture.insert(target, texture);
            }
            GlCall::TexStorage2D { target, levels, internal_format, width, height } => {
                assert_eq!(levels, 1);
                let pixels = vec![0u8; width as usize * height as usize];
                let texture = self.bound_texture[&target];
                self.textures.insert(texture, (target, internal_format, width, height, pixels));
            }
            GlCall::GetTexLevelParameteriv { target, level, parameter } => {
                assert_eq!(level, 0);
                let found = &self.textures[&self.bound_texture[&target]];
                assert_eq!(found.0, target);
                answer.integer = match parameter {
                    0x1000 => found.2,
                    0x1001 => found.3,
                    0x1003 => found.1 as i32,
                    _ => panic!("an unknown texture parameter"),
                }
            }
            GlCall::BindImageTexture { unit, texture, format, .. } => {
                assert_eq!(format, self.textures[&texture].1);
                self.images.insert(unit, texture);
            }
            GlCall::ClearTexImage { .. } if self.clear_fails => self.error = INVALID_OPERATION,
            GlCall::ClearTexImage { texture, format, pixel_type, color, .. } => {
                assert_eq!((format, pixel_type), (0x1908, 0x1401));
                assert_eq!((color.1, color.2, color.3), (9, 8, 7));
                for byte in self.textures.get_mut(&texture).unwrap().4.iter_mut() {
                    *byte = color.0;
                }
            }
            GlCall::DeleteTextures { texture } => {
                assert!(self.textures.remove(&texture).is_some(), "a texture is deleted once");
                self.deleted += 1;
            }
            GlCall::Uniform1ui { location, value } => {
                if location >= self.locations {
                    self.error = INVALID_OPERATION;
                } else {
                    self.numbers.insert(location, value);
                }
            }
            GlCall::DispatchCompute { groups } => {
                assert!(groups.0 > 0 && groups.1 > 0 && groups.2 > 0);
                if let (Some(texture), Some(value)) = (self.images.get(&0), self.numbers.get(&1)) {
                    for byte in self.textures.get_mut(texture).unwrap().4.iter_mut() {
                        *byte = *value as u8;
                    }
                }
                if let (Some(buffer), Some(value)) = (self.storage.get(&0), self.numbers.get(&1)) {
                    for byte in self.buffers.get_mut(buffer).unwrap().iter_mut() {
                        *byte = *value as u8;
                    }
                }
            }
            GlCall::GetQueryObjectui64v { parameter, .. } => {
                assert_eq!(parameter, 0x8866);
                answer.time = self.elapsed;
            }
            GlCall::FenceSync { condition, flags } => {
                assert_eq!((condition, flags), (0x9117, 0));
                answer.object = self.make();
            }
            GlCall::DeleteQueries { .. } | GlCall::DeleteSync { .. } => self.deleted += 1,
            GlCall::ClientWaitSync { .. } => answer.integer = self.wait_result,
            GlCall::GetString { .. }
            | GlCall::CompileShader { .. }
            | GlCall::LinkProgram { .. }
            | GlCall::UseProgram { .. }
            | GlCall::ActiveTexture { .. }
            | GlCall::TextureView { .. }
            | GlCall::MemoryBarrier { .. }
            | GlCall::Uniform4ui { .. }
            | GlCall::BeginQuery { .. }
            | GlCall::EndQuery { .. }
            | GlCall::Flush
            | GlCall::Finish => {}
        }
        answer
    }
}

fn drive<T>(context: &mut Context, mut next: impl FnMut(&[Reply]) -> Step<T>) -> Result<T, Error> {
    let mut replies: Vec<Reply> = Vec::new();
    loop {
        match next(&replies) {
            Step::Call(request) => {
                let answer = context.perform(&request);
                replies.push(answer);
            }
            Step::Done(result) => return result,
        }
        assert!(replies.len() < 100_000, "the operation ends");
    }
}

fn start(context: &mut Context) -> (Instance, Device, Queue) {
    let instance = Instance::new(Backend::Gl).unwrap();
    let device = drive(context, |replies| instance.open_device(replies)).unwrap();
    let queue = drive(context, |replies| device.create_queue(replies)).unwrap();
    (instance, device, queue)
}

#[test]
fn the_current_context_is_the_device() {
    let mut context = Context::new();
    let (instance, device, queue) = start(&mut context);
    assert_eq!(instance.shading_language(), ShadingLanguage::Glsl);
    assert_eq!(device.data(), 0);
    assert_eq!(queue.data(), 0);
    assert!(matches!(device.functions.backend, Backend::Gl));
    assert!(matches!(queue.functions.backend, Backend::Gl));
    assert!(context.calls.is_empty());
}

#[test]
fn a_texture_image_reports_what_it_was_made_with() {
    for format in [Format::R8, Format::RGBA8, Format::R32F] {
        let mut context = Context::new();
        let (_, device, _) = start(&mut context);
        let size = Size2D::new(19, 33);
        let image = drive(&mut context, |replies| {
            device.create_image(format, Protection::WriteOnly, &size, replies)
        })
        .unwrap();
        assert_eq!(drive(&mut context, |replies| image.width(replies)).unwrap(), 19);
        assert_eq!(drive(&mut context, |replies| image.height(replies)).unwrap(), 33);
        assert_eq!(drive(&mut context, |replies| image.format(replies)).unwrap(), format);
        assert_eq!(image.data()[1], 1);
    }
}

#[test]
fn an_image_that_is_too_large_is_not_made() {
    let mut context = Context::new();
    let (_, device, _) = start(&mut context);
    let size = Size2D::new(u32::MAX, 1);
    let result = drive(&mut context, |replies| {
        device.create_image(Format::R8, Protection::ReadWrite, &size, replies)
    });
    assert!(matches!(result, Err(Error::Failed)));
    let size = Size2D::new(1, 0x8000_0000);
    let result = drive(&mut context, |replies| {
        device.create_texture(Format::R8, Protection::ReadWrite, &size, replies)
    });
    assert!(matches!(result, Err(Error::Failed)));
    assert!(context.calls.is_empty());
}

#[test]
fn an_uninitialized_store_has_the_size_asked_for() {
    for size in [0usize, 1, 4096, 1_000_000] {
        let mut context = Context::new();
        let (_, device, queue) = start(&mut context);
        let buffer = drive(&mut context, |replies| {
            device.create_buffer(Protection::ReadWrite, BufferData::Uninitialized(size), replies)
        })
        .unwrap();
        assert_eq!(context.buffers[&(buffer.data() as u32)].len(), size);
        let mut dest = vec![0u8; size];
        drive(&mut context, |replies| queue.submit_read_buffer(&mut dest, &buffer, 0, &[], replies))
            .unwrap();
        assert!(dest.iter().all(|byte| *byte == 0xBB));
        let mut too_long = vec![0u8; size + 1];
        let result = drive(&mut context, |replies| {
            queue.submit_read_buffer(&mut too_long, &buffer, 0, &[], replies)
        });
        assert!(matches!(result, Err(Error::Failed)));
        assert!(too_long.iter().all(|byte| *byte == 0));
    }
}

#[test]
fn host_data_come_back_from_the_store() {
    for size in [0usize, 1, 4096, 1_000_000] {
        let input: Vec<u8> = (0..size).map(|i| (i * 13 + 5) as u8).collect();
        let mut context = Context::new();
        let (_, device, queue) = start(&mut context);
        let buffer = drive(&mut context, |replies| {
            let data = BufferData::HostAllocated(HostAllocatedData::new(&input));
            device.create_buffer(Protection::ReadOnly, data, replies)
        })
        .unwrap();
        let mut dest = vec![0u8; size];
        drive(&mut context, |replies| queue.submit_read_buffer(&mut dest, &buffer, 0, &[], replies))
            .unwrap();
        assert_eq!(dest, input);
    }
}

#[test]
fn a_store_is_read_from_the_start_given() {
    let input: Vec<u8> = (0..200u8).collect();
    let mut context = Context::new();
    let (_, device, queue) = start(&mut context);
    let buffer = drive(&mut context, |replies| {
        let data = BufferData::HostAllocated(HostAllocatedData::new(&input));
        device.create_buffer(Protection::ReadOnly, data, replies)
    })
    .unwrap();
    let before = context.calls.len();
    let mut dest = vec![0u8; 5];
    drive(&mut context, |replies| queue.submit_read_buffer(&mut dest, &buffer, 100, &[], replies))
        .unwrap();
    assert_eq!(dest, vec![100, 101, 102, 103, 104]);
    assert!(matches!(
        context.calls[before + 3],
        Call::Gl(GlCall::GetBufferSubData { target: 0x8F36, offset: 100, size: 5 })
    ));
}

#[test]
fn a_dispatch_fills_the_texture_image() {
    let (width, height) = (9u32, 4u32);
    let mut context = Context::new();
    let (_, device, queue) = start(&mut context);
    let size = Size2D::new(width, height);
    let image = drive(&mut context, |replies| {
        device.create_image(Format::R8, Protection::WriteOnly, &size, replies)
    })
    .unwrap();
    let program = drive(&mut context, |replies| device.create_program("void main() {}", replies))
        .unwrap();
    drive(&mut context, |replies| {
        let uniforms = [(0, Uniform::Image(&image)), (1, Uniform::U32(0xC7))];
        queue.submit_compute(&program, &[width, height], &uniforms, &[], replies)
    })
    .unwrap();
    let pixels = &context.textures[&(image.data()[0] as u32)].4;
    assert_eq!(pixels.len(), (width * height) as usize);
    assert!(pixels.iter().all(|byte| *byte == 0xC7));
}

#[test]
fn a_dispatch_fills_the_store() {
    let mut context = Context::new();
    let (_, device, queue) = start(&mut context);
    let buffer = drive(&mut context, |replies| {
        device.create_buffer(Protection::WriteOnly, BufferData::Uninitialized(32), replies)
    })
    .unwrap();
    let program = drive(&mut context, |replies| device.create_program("void main() {}", replies))
        .unwrap();
    drive(&mut context, |replies| {
        let uniforms = [(0, Uniform::Buffer(&buffer)), (1, Uniform::U32(0x11))];
        queue.submit_compute(&program, &[4, 8], &uniforms, &[], replies)
    })
    .unwrap();
    let store = Buffer::from_raw_data(buffer.data(), BufferFunctions { backend: Backend::Gl });
    let mut dest = vec![0u8; 32];
    drive(&mut context, |replies| queue.submit_read_buffer(&mut dest, &store, 0, &[], replies))
        .unwrap();
    assert!(dest.iter().all(|byte| *byte == 0x11));
}

#[test]
fn a_dispatch_binds_each_uniform_in_turn() {
    let mut context = Context::new();
    let (_, device, queue) = start(&mut context);
    let size = Size2D::new(2, 2);
    let image = drive(&mut context, |replies| {
        device.create_image(Format::R32F, Protection::ReadOnly, &size, replies)
    })
    .unwrap();
    let buffer = drive(&mut context, |replies| {
        device.create_buffer(Protection::ReadWrite, BufferData::Uninitialized(8), replies)
    })
    .unwrap();
    let program = drive(&mut context, |replies| device.create_program("void main() {}", replies))
        .unwrap();
    let before = context.calls.len();
    let event = drive(&mut context, |replies| {
        let uniforms = [
            (5, Uniform::U32(50)),
            (2, Uniform::Image(&image)),
            (6, Uniform::UVec4([1, 2, 3, 4])),
            (3, Uniform::Buffer(&buffer)),
        ];
        queue.submit_compute(&program, &[7], &uniforms, &[], replies)
    })
    .unwrap();
    let texture = image.data()[0] as u32;
    let calls = &context.calls[before..];
    assert_eq!(calls.len(), 1 + 1 + 6 + 1 + 2 + 6);
    assert!(matches!(calls[0], Call::Gl(GlCall::UseProgram { program: p }) if p as usize == program.data()));
    assert!(matches!(calls[1], Call::Gl(GlCall::Uniform1ui { location: 5, value: 50 })));
    assert!(matches!(calls[2], Call::Gl(GlCall::MemoryBarrier { barriers: 0x28 })));
    assert!(matches!(calls[3], Call::Gl(GlCall::ActiveTexture { unit: 0x84C0 })));
    assert!(matches!(calls[4], Call::Gl(GlCall::BindTexture { target: 0x84F5, texture: t }) if t == texture));
    assert!(matches!(
        calls[5],
        Call::Gl(GlCall::GetTexLevelParameteriv { target: 0x84F5, level: 0, parameter: 0x1003 })
    ));
    assert!(matches!(calls[6], Call::Gl(GlCall::BindTexture { target: 0x84F5, texture: 0 })));
    assert!(matches!(
        calls[7],
        Call::Gl(GlCall::BindImageTexture {
            unit: 2, texture: t, level: 0, layered: 0, layer: 0, access: 0x88B8, format: 0x822E
        }) if t == texture
    ));
    assert!(matches!(calls[8], Call::Gl(GlCall::Uniform4ui { location: 6, values: (1, 2, 3, 4) })));
    assert!(matches!(calls[9], Call::Gl(GlCall::MemoryBarrier { barriers: 0x2000 })));
    assert!(matches!(
        calls[10],
        Call::Gl(GlCall::BindBufferBase { target: 0x90D2, index: 3, buffer: b }) if b as usize == buffer.data()
    ));
    assert!(matches!(calls[11], Call::Gl(GlCall::GetError)));
    assert!(matches!(calls[12], Call::Gl(GlCall::GenQueries)));
    assert!(matches!(
        calls[13],
        Call::Gl(GlCall::BeginQuery { target: 0x88BF, query: q }) if q as usize == event.data()
    ));
    assert!(matches!(calls[14], Call::Gl(GlCall::DispatchCompute { groups: (7, 1, 1) })));
    assert!(matches!(calls[15], Call::Gl(GlCall::EndQuery { target: 0x88BF })));
    assert!(matches!(calls[16], Call::Gl(GlCall::GetError)));
}

#[test]
fn a_grid_that_cannot_be_dispatched_makes_no_call() {
    let mut context = Context::new();
    let (_, device, queue) = start(&mut context);
    let program = drive(&mut context, |replies| device.create_program("void main() {}", replies))
        .unwrap();
    let before = context.calls.len();
    for groups in [&[][..], &[0][..], &[3, 0, 3][..], &[1, 1, 1, 1][..]] {
        let result = drive(&mut context, |replies| {
            queue.submit_compute(&program, groups, &[], &[], replies)
        });
        assert!(matches!(result, Err(Error::Failed)));
    }
    assert_eq!(context.calls.len(), before);
}

#[test]
fn a_clear_sets_every_pixel() {
    let mut context = Context::new();
    let (_, device, queue) = start(&mut context);
    let size = Size2D::new(5, 5);
    let image = drive(&mut context, |replies| {
        device.create_image(Format::R8, Protection::ReadWrite, &size, replies)
    })
    .unwrap();
    let color = Color::UInt(0x1_42, 9, 0x208, 7);
    let event = drive(&mut context, |replies| queue.submit_clear(&image, &color, &[], replies))
        .unwrap();
    assert!(context.textures[&(image.data()[0] as u32)].4.iter().all(|byte| *byte == 0x42));
    assert_eq!(drive(&mut context, |replies| event.time_elapsed(replies)).unwrap(), 123_456);
    assert_eq!(drive(&mut context, |replies| event.time_elapsed(replies)).unwrap(), 123_456);
}

#[test]
fn a_fence_before_finish_is_reached() {
    let mut context = Context::new();
    let (_, device, queue) = start(&mut context);
    let program = drive(&mut context, |replies| device.create_program("void main() {}", replies))
        .unwrap();
    drive(&mut context, |replies| queue.submit_compute(&program, &[1, 1], &[], &[], replies))
        .unwrap();
    let event = drive(&mut context, |replies| queue.submit_sync_event(replies)).unwrap();
    assert!(drive(&mut context, |replies| queue.flush(replies)).is_ok());
    assert!(drive(&mut context, |replies| queue.finish(replies)).is_ok());
    assert!(drive(&mut context, |replies| event.wait(replies)).is_ok());
    context.wait_result = 0x911C;
    assert!(drive(&mut context, |replies| event.wait(replies)).is_ok());
    assert!(matches!(
        context.calls.last(),
        Some(Call::Gl(GlCall::ClientWaitSync { sync: s, flags: 1, timeout: 1_000_000_000_000 }))
            if *s == event.data()
    ));
}

#[test]
fn a_shader_that_does_not_compile_gives_its_log() {
    let mut context = Context::new();
    let (_, device, _) = start(&mut context);
    context.compile_fails = true;
    let result = drive(&mut context, |replies| device.create_program("void main( {}", replies));
    match result {
        Err(Error::CompileFailed(message)) => {
            assert_eq!(message, "0:1(1): error: syntax error");
        }
        _ => panic!("the compilation failed"),
    }
    assert_eq!(context.payloads[1], b"void main( {}".to_vec());
    assert_eq!(context.made, 1);
    assert_eq!(context.deleted, 1);
    assert!(matches!(context.calls.last(), Some(Call::Gl(GlCall::DeleteShader { shader: 1 }))));
}

#[test]
fn a_program_that_does_not_link_gives_its_log() {
    let mut context = Context::new();
    let (_, device, _) = start(&mut context);
    context.link_fails = true;
    context.log = b"error: no entry point".to_vec();
    let result = drive(&mut context, |replies| device.create_program("void f() {}", replies));
    match result {
        Err(Error::LinkFailed(message)) => assert_eq!(message, "error: no entry point"),
        _ => panic!("the link failed"),
    }
    assert_eq!(context.made, 2);
    assert_eq!(context.deleted, 2);
}

#[test]
fn every_object_is_deleted_once() {
    let mut context = Context::new();
    let (instance, device, queue) = start(&mut context);
    let program = drive(&mut context, |replies| device.create_program("void main() {}", replies))
        .unwrap();
    let buffer = drive(&mut context, |replies| {
        device.create_buffer(Protection::ReadWrite, BufferData::Uninitialized(64), replies)
    })
    .unwrap();
    let size = Size2D::new(4, 4);
    let image = drive(&mut context, |replies| {
        device.create_image(Format::RGBA8, Protection::ReadWrite, &size, replies)
    })
    .unwrap();
    let texture = drive(&mut context, |replies| {
        device.create_texture(Format::R8, Protection::ReadOnly, &size, replies)
    })
    .unwrap();
    let sync = drive(&mut context, |replies| queue.submit_sync_event(replies)).unwrap();
    let profile = drive(&mut context, |replies| {
        queue.submit_compute(&program, &[1], &[], &[], replies)
    })
    .unwrap();
    assert_eq!(context.made, 7);
    assert_eq!(context.deleted, 0);

    drive(&mut context, |replies| profile.destroy(replies)).unwrap();
    drive(&mut context, |replies| sync.destroy(replies)).unwrap();
    drive(&mut context, |replies| texture.destroy(replies)).unwrap();
    drive(&mut context, |replies| image.destroy(replies)).unwrap();
    drive(&mut context, |replies| buffer.destroy(replies)).unwrap();
    drive(&mut context, |replies| program.destroy(replies)).unwrap();
    drive(&mut context, |replies| queue.destroy(replies)).unwrap();
    drive(&mut context, |replies| device.destroy(replies)).unwrap();
    drive(&mut context, |replies| instance.destroy(replies)).unwrap();
    assert_eq!(context.deleted, context.made);
    assert!(context.buffers.is_empty());
    assert!(context.textures.is_empty());
}

#[test]
fn an_external_texture_views_the_image() {
    let mut context = Context::new();
    let (_, device, _) = start(&mut context);
    let size = Size2D::new(64, 64);
    let image = drive(&mut context, |replies| {
        device.create_image(Format::RGBA8, Protection::ReadWrite, &size, replies)
    })
    .unwrap();
    drive(&mut context, |replies| image.bind_to(&ExternalImage::GlTexture(99), replies)).unwrap();
    assert!(matches!(context.calls.last(), Some(Call::Gl(GlCall::GetError))));
    assert!(matches!(
        context.calls.get(context.calls.len() - 2),
        Some(Call::Gl(GlCall::TextureView {
            texture: 99, target: 0x84F5, original: o, internal_format: 0x8058, min_level: 0,
            levels: 1, min_layer: 0, layers: 1,
        })) if *o as usize == image.data()[0]
    ));
}

#[test]
fn an_external_texture_views_the_texture() {
    let mut context = Context::new();
    let (_, device, _) = start(&mut context);
    let size = Size2D::new(12, 10);
    let texture = drive(&mut context, |replies| {
        device.create_texture(Format::R32F, Protection::ReadWrite, &size, replies)
    })
    .unwrap();
    assert_eq!(drive(&mut context, |replies| texture.width(replies)).unwrap(), 12);
    assert_eq!(drive(&mut context, |replies| texture.height(replies)).unwrap(), 10);
    let before = context.calls.len();
    drive(&mut context, |replies| texture.bind_to(&ExternalTexture::Gl(3), replies)).unwrap();
    assert_eq!(context.calls.len(), before + 6);
    assert!(matches!(
        context.calls[before + 4],
        Call::Gl(GlCall::TextureView {
            texture: 3, target: 0x0DE1, internal_format: 0x822E, levels: 1, layers: 1, ..
        })
    ));
}

#[test]
fn an_index_that_the_program_lacks_dispatches_nothing() {
    let mut context = Context::new();
    let (_, device, queue) = start(&mut context);
    let program = drive(&mut context, |replies| device.create_program("void main() {}", replies))
        .unwrap();
    let buffer = drive(&mut context, |replies| {
        device.create_buffer(Protection::ReadWrite, BufferData::Uninitialized(8), replies)
    })
    .unwrap();
    let made = context.made;
    let before = context.calls.len();
    let result = drive(&mut context, |replies| {
        let uniforms = [(0, Uniform::U32(1)), (99, Uniform::U32(2))];
        queue.submit_compute(&program, &[4, 4], &uniforms, &[], replies)
    });
    assert!(matches!(result, Err(Error::Failed)));
    let result = drive(&mut context, |replies| {
        let uniforms = [(40, Uniform::Buffer(&buffer)), (1, Uniform::U32(2))];
        queue.submit_compute(&program, &[4, 4], &uniforms, &[], replies)
    });
    assert!(matches!(result, Err(Error::Failed)));
    assert!(!context.calls[before..]
        .iter()
        .any(|call| matches!(call, Call::Gl(GlCall::DispatchCompute { .. }))));
    assert_eq!(context.made, made);
    let again = drive(&mut context, |replies| {
        queue.submit_compute(&program, &[4, 4], &[(0, Uniform::U32(1))], &[], replies)
    });
    assert!(again.is_ok());
    assert_eq!(context.buffers[&(buffer.data() as u32)].len(), 8);
}

#[test]
fn a_clear_that_the_driver_refuses_fails() {
    let mut context = Context::new();
    let (_, device, queue) = start(&mut context);
    let size = Size2D::new(3, 3);
    let image = drive(&mut context, |replies| {
        device.create_image(Format::R8, Protection::ReadWrite, &size, replies)
    })
    .unwrap();
    context.clear_fails = true;
    let (made, deleted) = (context.made, context.deleted);
    let color = Color::UInt(1, 9, 8, 7);
    let result = drive(&mut context, |replies| queue.submit_clear(&image, &color, &[], replies));
    assert!(matches!(result, Err(Error::Failed)));
    assert_eq!(context.made - made, context.deleted - deleted);
    assert!(context.textures[&(image.data()[0] as u32)].4.iter().all(|byte| *byte == 0));
    context.clear_fails = false;
    assert!(drive(&mut context, |replies| queue.submit_clear(&image, &color, &[], replies)).is_ok());
}

#[test]
fn a_store_that_cannot_be_allocated_is_no_buffer() {
    let mut context = Context::new();
    let (_, device, _) = start(&mut context);
    context.out_of_memory = true;
    let result = drive(&mut context, |replies| {
        device.create_buffer(Protection::ReadWrite, BufferData::Uninitialized(1 << 20), replies)
    });
    assert!(matches!(result, Err(Error::Failed)));
    assert_eq!(context.made, 1);
    assert_eq!(context.deleted, 1);
    assert!(matches!(context.calls.last(), Some(Call::Gl(GlCall::DeleteBuffers { buffer: 1 }))));
    context.out_of_memory = false;
    context.out_of_names = true;
    let before = context.calls.len();
    let result = drive(&mut context, |replies| {
        device.create_buffer(Protection::ReadWrite, BufferData::Uninitialized(16), replies)
    });
    assert!(matches!(result, Err(Error::Failed)));
    assert_eq!(context.calls.len(), before + 1);
    let size = Size2D::new(2, 2);
    let result = drive(&mut context, |replies| {
        device.create_image(Format::R8, Protection::ReadWrite, &size, replies)
    });
    assert!(matches!(result, Err(Error::Failed)));
    let result = drive(&mut context, |replies| device.create_program("void main() {}", replies));
    assert!(matches!(result, Err(Error::Failed)));
}

#[test]
fn a_fence_that_the_driver_does_not_give_is_no_event() {
    let mut context = Context::new();
    let (_, _, queue) = start(&mut context);
    context.out_of_names = true;
    let result = drive(&mut context, |replies| queue.submit_sync_event(replies));
    assert!(matches!(result, Err(Error::Failed)));
    context.out_of_names = false;
    assert!(drive(&mut context, |replies| queue.submit_sync_event(replies)).is_ok());
}

#[test]
fn a_wait_that_times_out_or_fails_is_a_failure() {
    let mut context = Context::new();
    let (_, _, queue) = start(&mut context);
    let event = drive(&mut context, |replies| queue.submit_sync_event(replies)).unwrap();
    context.wait_result = 0x911B;
    assert!(matches!(drive(&mut context, |replies| event.wait(replies)), Err(Error::Failed)));
    context.wait_result = 0x911D;
    assert!(matches!(drive(&mut context, |replies| event.wait(replies)), Err(Error::Failed)));
    context.wait_result = 0x911A;
    assert!(drive(&mut context, |replies| event.wait(replies)).is_ok());
}

#[test]
fn an_error_of_the_driver_fails_the_operation_that_met_it() {
    let mut context = Context::new();
    let (_, device, queue) = start(&mut context);
    let buffer = drive(&mut context, |replies| {
        device.create_buffer(Protection::ReadWrite, BufferData::Uninitialized(4), replies)
    })
    .unwrap();
    let mut dest = [5u8; 8];
    let result = drive(&mut context, |replies| {
        queue.submit_read_buffer(&mut dest, &buffer, 0, &[], replies)
    });
    assert!(matches!(result, Err(Error::Failed)));
    assert_eq!(dest, [5u8; 8]);
    context.error = INVALID_OPERATION;
    assert!(matches!(drive(&mut context, |replies| queue.flush(replies)), Err(Error::Failed)));
    assert!(drive(&mut context, |replies| queue.flush(replies)).is_ok());
    context.error = INVALID_OPERATION;
    assert!(matches!(drive(&mut context, |replies| queue.finish(replies)), Err(Error::Failed)));
    assert!(drive(&mut context, |replies| queue.finish(replies)).is_ok());
}
