//! Tests of command recording and queue submission: the mapped-buffer round
//! trip, the unmap-on-every-path guarantee, and the scratch-list reuse.

use dawn_rs::{
    BufferDescriptor, BufferUsage, CommandEncoderDescriptor, DeviceDescriptor, Instance,
    NativeCall, Registry,
};

fn setup() -> (Registry, dawn_rs::Device) {
    let mut reg = Registry::new();
    let instance = Instance::new(&mut reg);
    let adapters = instance.enumerate_adapters(&mut reg);
    let device = adapters[0].create_device(&mut reg, &DeviceDescriptor::default());
    (reg, device)
}

#[test]
fn mapped_buffer_copy_round_trip() {
    let (mut reg, device) = setup();
    let data: Vec<u8> = (1..=16).collect();
    let source = device.create_buffer_with_data(&mut reg, &data, BufferUsage::copy_src());
    let destination = device.create_buffer(
        &mut reg,
        &BufferDescriptor { label: None, size: 16, usage: BufferUsage::copy_dst() },
    );
    let mut encoder =
        device.create_command_encoder(&mut reg, &CommandEncoderDescriptor { label: None });
    encoder.copy_buffer_to_buffer(&mut reg, &source, 0, &destination, 0, 16);
    let command_buffer = encoder.finish(&mut reg);
    let mut queue = device.default_queue(&mut reg);
    queue.submit(&mut reg, &[command_buffer]);
    assert_eq!(destination.contents(&reg).as_slice(), data.as_slice());
}

#[test]
fn mapped_buffer_write_then_finish_commits() {
    let (mut reg, device) = setup();
    let mut mapped = device.create_buffer_mapped(
        &mut reg,
        &BufferDescriptor {
            label: None,
            size: 4,
            usage: BufferUsage::map_write().union(BufferUsage::copy_src()),
        },
    );
    mapped.data[0] = 10;
    mapped.data[3] = 40;
    let buffer = mapped.finish(&mut reg);
    assert_eq!(buffer.contents(&reg).as_slice(), &[10, 0, 0, 40]);
}

#[test]
fn dropping_a_mapped_buffer_unmaps_exactly_once() {
    let (mut reg, device) = setup();
    let mapped = device.create_buffer_mapped(
        &mut reg,
        &BufferDescriptor { label: None, size: 4, usage: BufferUsage::map_write() },
    );
    let buffer_id = reg.objects.len();
    mapped.discard(&mut reg);
    let unmaps = reg
        .calls
        .iter()
        .filter(|c| **c == NativeCall::BufferUnmap { buffer: buffer_id })
        .count();
    assert_eq!(unmaps, 1);
    let releases = reg
        .calls
        .iter()
        .filter(|c| **c == NativeCall::Release { handle: buffer_id })
        .count();
    assert_eq!(releases, 1);
}

#[test]
fn finishing_a_mapped_buffer_unmaps_exactly_once() {
    let (mut reg, device) = setup();
    let mapped = device.create_buffer_mapped(
        &mut reg,
        &BufferDescriptor { label: None, size: 4, usage: BufferUsage::map_write() },
    );
    let buffer_id = reg.objects.len();
    let _buffer = mapped.finish(&mut reg);
    let unmaps = reg
        .calls
        .iter()
        .filter(|c| **c == NativeCall::BufferUnmap { buffer: buffer_id })
        .count();
    assert_eq!(unmaps, 1);
}

#[test]
fn scratch_list_holds_only_the_current_submission() {
    let (mut reg, device) = setup();
    let encoder_a =
        device.create_command_encoder(&mut reg, &CommandEncoderDescriptor { label: None });
    let cb_a = encoder_a.finish(&mut reg);
    let cb_a_id = reg.objects.len();
    let encoder_b =
        device.create_command_encoder(&mut reg, &CommandEncoderDescriptor { label: None });
    let cb_b = encoder_b.finish(&mut reg);
    let cb_b_id = reg.objects.len();
    let mut queue = device.default_queue(&mut reg);
    queue.submit(&mut reg, &[cb_a]);
    queue.submit(&mut reg, &[cb_b]);
    let submits: Vec<&NativeCall> = reg
        .calls
        .iter()
        .filter(|c| matches!(c, NativeCall::Submit { .. }))
        .collect();
    assert_eq!(submits.len(), 2);
    match submits[0] {
        NativeCall::Submit { commands, .. } => assert_eq!(commands.as_slice(), &[cb_a_id]),
        _ => unreachable!(),
    }
    match submits[1] {
        NativeCall::Submit { commands, .. } => {
            // Nothing of the first submission leaks into the second.
            assert_eq!(commands.as_slice(), &[cb_b_id]);
        }
        _ => unreachable!(),
    }
}

#[test]
fn submit_with_empty_list_submits_nothing() {
    let (mut reg, device) = setup();
    let mut queue = device.default_queue(&mut reg);
    queue.submit(&mut reg, &[]);
    match reg.calls.last().unwrap() {
        NativeCall::Submit { commands, .. } => assert!(commands.is_empty()),
        _ => unreachable!(),
    }
}

#[test]
fn pass_state_machine_round_trip() {
    let (mut reg, device) = setup();
    let encoder =
        device.create_command_encoder(&mut reg, &CommandEncoderDescriptor { label: None });
    // Opening a pass consumes the encoder, so it cannot be finished while
    // the pass is alive; ending the pass hands it back.
    let mut pass = encoder.begin_compute_pass(
        &mut reg,
        &dawn_rs::ComputePassDescriptor { label: None },
    );
    pass.dispatch(&mut reg, 8, 8, 1);
    let encoder = pass.end_pass(&mut reg);
    let _command_buffer = encoder.finish(&mut reg);
    let dispatched = reg.calls.iter().any(|c| {
        matches!(
            c,
            NativeCall::Encode { op: dawn_rs::EncodeOp::Dispatch { x: 8, y: 8, z: 1 }, .. }
        )
    });
    assert!(dispatched);
}
