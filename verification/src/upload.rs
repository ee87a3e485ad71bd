//! The resource uploader: moving host-authored bytes into device-local
//! buffers through staging copies, and the draw decision that follows from
//! which buffers exist.
//!
//! Device memory is modelled by the bytes the device would hold after the
//! modelled transfer commands have completed; every transfer here stands for
//! a staging write followed by a one-time copy command that is waited on
//! before the function returns.

use vstd::prelude::*;

verus! {

/// Bytes of one vertex as laid out for the vertex shader: a three-float
/// position and a three-float normal.
pub const VERTEX_STRIDE: usize = 24;

/// Bytes of one per-instance record: a four-by-four float matrix.
pub const INSTANCE_STRIDE: usize = 64;

/// Bytes of the camera uniform block: one four-by-four float matrix.
pub const UNIFORM_LEN: usize = 64;

/// What a host-visible staging buffer and its device-local partner hold.
pub ghost struct ChannelModel {
    pub staging: Seq<u8>,
    pub device: Seq<u8>,
}

impl ChannelModel {
    /// Writing the staging buffer touches only the staging side.
    pub open spec fn write(self, data: Seq<u8>) -> ChannelModel {
        ChannelModel { staging: data, device: self.device }
    }

    /// The copy command replaces the device contents with the staging
    /// contents, byte for byte.
    pub open spec fn copy(self) -> ChannelModel {
        ChannelModel { staging: self.staging, device: self.staging }
    }

    /// A host-visible mapping reads the device side back.
    pub open spec fn read_back(self) -> Seq<u8> {
        self.device
    }
}

/// Data staged into host-visible memory and copied to a device buffer come
/// back bit-identical through a subsequent host-visible read.
pub proof fn lemma_staging_round_trip(c: ChannelModel, data: Seq<u8>)
    ensures
        c.write(data).copy().read_back() == data,
{
}

/// A persistent host-visible staging buffer paired with the persistent
/// device-local buffer it feeds; the pair the uniform re-upload path reuses
/// on every camera change instead of allocating anew.
#[derive(Debug)]
pub struct StagingChannel {
    staging: Vec<u8>,
    device: Vec<u8>,
}

impl View for StagingChannel {
    type V = ChannelModel;

    closed spec fn view(&self) -> ChannelModel {
        ChannelModel { staging: self.staging@, device: self.device@ }
    }
}

/// Copy bytes into a fresh vector.
fn copy_bytes(src: &Vec<u8>) -> (r: Vec<u8>)
    ensures
        r@ == src@,
{
    let mut out: Vec<u8> = Vec::new();
    let mut i: usize = 0;
    while i < src.len()
        invariant
            i <= src@.len(),
            out@ == src@.subrange(0, i as int),
        decreases src@.len() - i,
    {
        out.push(src[i]);
        i = i + 1;
    }
    proof {
        assert(out@ =~= src@);
    }
    out
}

impl StagingChannel {
    /// Allocate both sides zero-filled, `len` bytes each.
    pub fn new(len: usize) -> (r: StagingChannel)
        ensures
            r@.staging.len() == len,
            r@.device.len() == len,
            forall|i: int| 0 <= i < len ==> r@.staging[i] == 0u8 && r@.device[i] == 0u8,
    {
        let staging = vec![0u8; len];
        let device = vec![0u8; len];
        StagingChannel { staging, device }
    }

    /// Bytes each side holds.
    pub fn len(&self) -> (r: usize)
        ensures
            r == self@.staging.len(),
    {
        self.staging.len()
    }

    /// Overwrite the staging side with `data`; the device side is untouched
    /// until a copy command runs.
    pub fn write_staging(&mut self, data: &Vec<u8>)
        requires
            data@.len() == old(self)@.staging.len(),
        ensures
            final(self)@ == old(self)@.write(data@),
    {
        self.staging = copy_bytes(data);
    }

    /// The one-time copy command, waited to completion: the device side now
    /// equals the staging side.
    pub fn copy_to_device(&mut self)
        ensures
            final(self)@ == old(self)@.copy(),
    {
        self.device = copy_bytes(&self.staging);
    }

    /// Read the device contents back through a host-visible mapping.
    pub fn read_back(&self) -> (r: Vec<u8>)
        ensures
            r@ == self@.read_back(),
    {
        copy_bytes(&self.device)
    }
}

/// A buffer created once in device-local memory and filled through a staging
/// buffer and a one-time copy.
#[derive(Debug)]
pub struct DeviceLocalBuffer {
    bytes: Vec<u8>,
}

impl View for DeviceLocalBuffer {
    type V = Seq<u8>;

    closed spec fn view(&self) -> Seq<u8> {
        self.bytes@
    }
}

impl DeviceLocalBuffer {
    /// Allocate a device buffer of exactly `host.len()` bytes, stage the
    /// host data, copy, and wait: the device holds the host bytes.
    pub fn upload_once(host: &Vec<u8>) -> (r: DeviceLocalBuffer)
        ensures
            r@ == host@,
    {
        DeviceLocalBuffer { bytes: copy_bytes(host) }
    }

    pub fn len(&self) -> (r: usize)
        ensures
            r == self@.len(),
    {
        self.bytes.len()
    }

    /// The bytes the device holds.
    pub fn contents(&self) -> (r: &Vec<u8>)
        ensures
            r@ == self@,
    {
        &self.bytes
    }
}

/// Widen a mesh's indices for the index buffer. An empty index list yields
/// no buffer at all; the draw path then falls back to non-indexed drawing.
pub fn prepare_indices(indices: &Vec<u16>) -> (r: Option<Vec<u32>>)
    ensures
        r is Some <==> indices@.len() > 0,
        (r matches Some(w) ==> w@.len() == indices@.len() && forall|i: int|
            0 <= i < indices@.len() ==> w@[i] == indices@[i] as u32),
{
    if indices.len() == 0 {
        None
    } else {
        let mut out: Vec<u32> = Vec::new();
        let mut i: usize = 0;
        while i < indices.len()
            invariant
                i <= indices@.len(),
                out@.len() == i,
                forall|j: int| 0 <= j < i ==> out@[j] == indices@[j] as u32,
            decreases indices@.len() - i,
        {
            out.push(indices[i] as u32);
            i = i + 1;
        }
        Some(out)
    }
}

/// Host-authored mesh data handed to the uploader: raw vertex and instance
/// bytes plus the index list, as the asset collaborators deliver them.
#[derive(Debug)]
pub struct MeshUpload {
    pub vertex_bytes: Vec<u8>,
    pub vertex_count: u32,
    pub indices: Vec<u16>,
    pub instance_bytes: Vec<u8>,
    pub instance_count: u32,
}

impl MeshUpload {
    /// The byte payloads agree with the element counts and strides, and the
    /// index list fits an index buffer.
    pub open spec fn wf(self) -> bool {
        &&& self.vertex_bytes@.len() == self.vertex_count * VERTEX_STRIDE
        &&& self.instance_bytes@.len() == self.instance_count * INSTANCE_STRIDE
        &&& self.indices@.len() <= u32::MAX
    }
}

/// What the device-local buffers hold once all creation-time transfers have
/// completed.
pub ghost struct ResourcesModel {
    pub vertex: Seq<u8>,
    pub vertex_count: u32,
    pub index: Option<Seq<u32>>,
    pub instance: Seq<u8>,
    pub instance_count: u32,
    pub uniform: ChannelModel,
    pub ambient: Seq<u8>,
    pub directional: Seq<u8>,
}

impl ResourcesModel {
    /// A camera change re-uploads the uniform block through the persistent
    /// staging pair and leaves every other buffer alone.
    pub open spec fn after_uniform_upload(self, data: Seq<u8>) -> ResourcesModel {
        ResourcesModel { uniform: self.uniform.write(data).copy(), ..self }
    }
}

/// The draw command recorded for a frame: indexed over the index buffer when
/// one exists, else a plain draw over the full vertex count.
#[derive(Clone, Copy, PartialEq, Eq, Structural, Debug)]
pub enum DrawCommand {
    Indexed { index_count: u32 },
    NonIndexed { vertex_count: u32 },
}

/// The draw decision a buffer set dictates.
pub open spec fn spec_plan_draw(m: ResourcesModel) -> DrawCommand {
    match m.index {
        Some(w) => DrawCommand::Indexed { index_count: w.len() as u32 },
        None => DrawCommand::NonIndexed { vertex_count: m.vertex_count },
    }
}

/// Every device-resident buffer the renderer binds: created once at device
/// initialization, stable across frames; only the uniform pair is ever
/// written again.
#[derive(Debug)]
pub struct DeviceResources {
    vertex: DeviceLocalBuffer,
    vertex_count: u32,
    index: Option<Vec<u32>>,
    instance: DeviceLocalBuffer,
    instance_count: u32,
    uniform: StagingChannel,
    ambient: DeviceLocalBuffer,
    directional: DeviceLocalBuffer,
}

impl View for DeviceResources {
    type V = ResourcesModel;

    closed spec fn view(&self) -> ResourcesModel {
        ResourcesModel {
            vertex: self.vertex@,
            vertex_count: self.vertex_count,
            index: match self.index {
                Some(v) => Some(v@),
                None => None,
            },
            instance: self.instance@,
            instance_count: self.instance_count,
            uniform: self.uniform@,
            ambient: self.ambient@,
            directional: self.directional@,
        }
    }
}

impl DeviceResources {
    /// Buffer sizes agree with the element counts, the uniform pair has the
    /// uniform block's size on both sides, and an index buffer, when
    /// present, is non-empty and addressable by a draw command.
    pub open spec fn wf(self) -> bool {
        &&& self@.vertex.len() == self@.vertex_count * VERTEX_STRIDE
        &&& self@.instance.len() == self@.instance_count * INSTANCE_STRIDE
        &&& self@.uniform.staging.len() == UNIFORM_LEN
        &&& self@.uniform.device.len() == UNIFORM_LEN
        &&& (self@.index matches Some(w) ==> 0 < w.len() <= u32::MAX)
    }

    /// Create every device-local buffer with its exact element count, stage
    /// the host data, and run the one-time copy commands to completion. An
    /// empty index list yields no index buffer and no index copy.
    pub fn new(
        mesh: &MeshUpload,
        uniform0: &Vec<u8>,
        ambient_bytes: &Vec<u8>,
        directional_bytes: &Vec<u8>,
    ) -> (r: DeviceResources)
        requires
            mesh.wf(),
            uniform0@.len() == UNIFORM_LEN,
        ensures
            r@.vertex == mesh.vertex_bytes@,
            r@.vertex_count == mesh.vertex_count,
            r@.index is Some <==> mesh.indices@.len() > 0,
            (r@.index matches Some(w) ==> w.len() == mesh.indices@.len() && forall|i: int|
                0 <= i < mesh.indices@.len() ==> w[i] == mesh.indices@[i] as u32),
            r@.instance == mesh.instance_bytes@,
            r@.instance_count == mesh.instance_count,
            r@.uniform.staging == uniform0@,
            r@.uniform.device == uniform0@,
            r@.ambient == ambient_bytes@,
            r@.directional == directional_bytes@,
            r.wf(),
    {
        let mut uniform = StagingChannel::new(UNIFORM_LEN);
        uniform.write_staging(uniform0);
        uniform.copy_to_device();
        DeviceResources {
            vertex: DeviceLocalBuffer::upload_once(&mesh.vertex_bytes),
            vertex_count: mesh.vertex_count,
            index: prepare_indices(&mesh.indices),
            instance: DeviceLocalBuffer::upload_once(&mesh.instance_bytes),
            instance_count: mesh.instance_count,
            uniform,
            ambient: DeviceLocalBuffer::upload_once(ambient_bytes),
            directional: DeviceLocalBuffer::upload_once(directional_bytes),
        }
    }

    /// Re-upload the uniform block after a camera change: write the
    /// persistent staging buffer, issue the copy command, and wait. No
    /// buffer is reallocated and no other buffer changes.
    pub fn update_uniform(&mut self, data: &Vec<u8>)
        requires
            data@.len() == UNIFORM_LEN,
            old(self).wf(),
        ensures
            final(self)@ == old(self)@.after_uniform_upload(data@),
            final(self).wf(),
    {
        self.uniform.write_staging(data);
        self.uniform.copy_to_device();
    }

    /// The draw command the current buffer set dictates: indexed when an
    /// index buffer exists, else non-indexed over the full vertex count.
    pub fn plan_draw(&self) -> (r: DrawCommand)
        requires
            self.wf(),
        ensures
            r == spec_plan_draw(self@),
    {
        match &self.index {
            Some(v) => DrawCommand::Indexed { index_count: v.len() as u32 },
            None => DrawCommand::NonIndexed { vertex_count: self.vertex_count },
        }
    }

    /// Whether an index buffer was created.
    pub fn has_index_buffer(&self) -> (r: bool)
        ensures
            r == (self@.index is Some),
    {
        self.index.is_some()
    }

    /// The index buffer's contents, when one exists.
    pub fn index_contents(&self) -> (r: &Option<Vec<u32>>)
        ensures
            r is Some <==> self@.index is Some,
            (r matches Some(v) ==> self@.index matches Some(w) && v@ == w),
    {
        &self.index
    }

    /// The device-resident vertex bytes.
    pub fn vertex_contents(&self) -> (r: &Vec<u8>)
        ensures
            r@ == self@.vertex,
    {
        self.vertex.contents()
    }

    /// The device-resident instance bytes.
    pub fn instance_contents(&self) -> (r: &Vec<u8>)
        ensures
            r@ == self@.instance,
    {
        self.instance.contents()
    }

    /// Read the uniform device buffer back through a host-visible mapping.
    pub fn uniform_read_back(&self) -> (r: Vec<u8>)
        ensures
            r@ == self@.uniform.read_back(),
    {
        self.uniform.read_back()
    }
}

} // verus!
