//! Uploader scenarios: the staging round trip, the uniform re-upload path,
//! and the index-buffer fallback.

use frame_lifecycle::upload::{
    prepare_indices, DeviceResources, DrawCommand, MeshUpload, StagingChannel,
};

fn mesh(indices: Vec<u16>) -> MeshUpload {
    MeshUpload {
        vertex_bytes: vec![9u8; 24 * 3],
        vertex_count: 3,
        indices,
        instance_bytes: vec![8u8; 64],
        instance_count: 1,
    }
}

#[test]
fn staging_round_trip_is_bit_identical() {
    let mut channel = StagingChannel::new(4);
    let data = vec![0xDEu8, 0xAD, 0xBE, 0xEF];
    channel.write_staging(&data);
    channel.copy_to_device();
    assert_eq!(channel.read_back(), data);
}

#[test]
fn staging_write_alone_leaves_device_unchanged() {
    let mut channel = StagingChannel::new(3);
    channel.write_staging(&vec![1u8, 2, 3]);
    assert_eq!(channel.read_back(), vec![0u8, 0, 0]);
    channel.copy_to_device();
    assert_eq!(channel.read_back(), vec![1u8, 2, 3]);
}

#[test]
fn uniform_update_reaches_device_bit_identical() {
    let mut res = DeviceResources::new(&mesh(vec![]), &vec![0u8; 64], &vec![0u8; 16], &vec![
        0u8;
        24
    ]);
    let fresh: Vec<u8> = (0..64).map(|i| i as u8).collect();
    res.update_uniform(&fresh);
    assert_eq!(res.uniform_read_back(), fresh);
}

#[test]
fn initial_uniform_upload_reaches_device() {
    let uniform0: Vec<u8> = (0..64).map(|i| (64 - i) as u8).collect();
    let res = DeviceResources::new(&mesh(vec![]), &uniform0, &vec![0u8; 16], &vec![0u8; 24]);
    assert_eq!(res.uniform_read_back(), uniform0);
}

#[test]
fn empty_index_list_yields_no_index_buffer_and_nonindexed_draw() {
    let res = DeviceResources::new(&mesh(vec![]), &vec![0u8; 64], &vec![0u8; 16], &vec![0u8; 24]);
    assert!(!res.has_index_buffer());
    assert!(res.index_contents().is_none());
    assert_eq!(res.plan_draw(), DrawCommand::NonIndexed { vertex_count: 3 });
}

#[test]
fn nonempty_index_list_yields_widened_index_buffer() {
    let res = DeviceResources::new(&mesh(vec![2, 0, 1, 2]), &vec![0u8; 64], &vec![0u8; 16], &vec![
        0u8;
        24
    ]);
    assert!(res.has_index_buffer());
    assert_eq!(res.index_contents().as_ref().unwrap(), &vec![2u32, 0, 1, 2]);
    assert_eq!(res.plan_draw(), DrawCommand::Indexed { index_count: 4 });
}

#[test]
fn prepare_indices_widens_or_vanishes() {
    assert_eq!(prepare_indices(&vec![]), None);
    assert_eq!(prepare_indices(&vec![65535u16, 7]), Some(vec![65535u32, 7]));
}

#[test]
fn creation_uploads_vertex_and_instance_bytes() {
    let m = mesh(vec![0]);
    let res = DeviceResources::new(&m, &vec![0u8; 64], &vec![5u8; 16], &vec![6u8; 24]);
    assert_eq!(res.vertex_contents(), &m.vertex_bytes);
    assert_eq!(res.instance_contents(), &m.instance_bytes);
}
