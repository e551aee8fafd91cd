//! An explicit model of the graphics device and its command queue.
//!
//! Command generation is single-threaded: a tick builds one
//! [`CommandEncoder`], and the whole stream is submitted at once. The only
//! ordering guarantee the system relies on is in-submission-order execution
//! within one stream, so the model executes a submitted stream strictly in
//! order, as a function [`run`] of the starting state and the commands.
//! Everything the pipeline proves about texture contents — the feedback
//! copy, the capture ordering, determinism of re-runs — is stated over that
//! function.

use vstd::prelude::*;

verus! {

/// Bytes per texel of the working texture format (four 8-bit channels).
pub open spec fn bytes_per_pixel() -> nat {
    4
}

/// A GPU-resident 2D image buffer with fixed dimensions, usable as a render
/// target, as a sampled input and as a copy source or destination.
#[derive(Debug)]
pub struct Texture {
    /// Width in pixels; never changes after creation.
    pub width: u32,
    /// Height in pixels; never changes after creation.
    pub height: u32,
    /// The texel bytes, row-major.
    pub data: Vec<u8>,
}

/// The mathematical value of a [`Texture`].
#[verifier::ext_equal]
pub ghost struct TextureModel {
    /// Width in pixels.
    pub width: u32,
    /// Height in pixels.
    pub height: u32,
    /// The texel bytes.
    pub data: Seq<u8>,
}

impl View for Texture {
    type V = TextureModel;

    open spec fn view(&self) -> TextureModel {
        TextureModel { width: self.width, height: self.height, data: self.data@ }
    }
}

/// A texture's byte count agrees with its dimensions.
pub open spec fn texture_wf(t: TextureModel) -> bool {
    t.data.len() == t.width * t.height * bytes_per_pixel()
}

/// One pending readback: a host-visible staging area that receives a
/// texture's bytes when the capturing stream executes. Until then it is not
/// submitted and holds nothing readable.
#[derive(Debug)]
pub struct SnapshotSlot {
    /// Whether a stream containing the capture has been submitted.
    pub submitted: bool,
    /// The captured bytes; meaningful only once submitted.
    pub data: Vec<u8>,
}

/// The mathematical value of a [`SnapshotSlot`].
#[verifier::ext_equal]
pub ghost struct SnapshotSlotModel {
    /// Whether a stream containing the capture has been submitted.
    pub submitted: bool,
    /// The captured bytes.
    pub data: Seq<u8>,
}

impl View for SnapshotSlot {
    type V = SnapshotSlotModel;

    open spec fn view(&self) -> SnapshotSlotModel {
        SnapshotSlotModel { submitted: self.submitted, data: self.data@ }
    }
}

/// What a draw writes into its pass's output texture. A compiled fragment
/// shader is opaque to the host; the model reduces its observable behavior
/// to a deterministic function of the bound input textures, which is all
/// the pipeline logic depends on.
#[derive(Debug, Clone, Copy, PartialEq, Eq, Structural)]
pub enum ShaderEffect {
    /// Writes the input texture at this position of the binding list
    /// through unchanged: a pass-through shader.
    CopyInput {
        /// Position in the pass's input-texture list.
        index: usize,
    },
    /// Writes the same byte to every channel of every texel.
    Fill {
        /// The byte written.
        value: u8,
    },
}

/// One enqueued GPU command. Indices name textures, buffers and snapshot
/// slots of the device that the stream will be submitted to.
#[derive(Debug)]
pub enum Command {
    /// Copies the whole source buffer over the destination buffer.
    CopyBufferToBuffer {
        /// Source buffer.
        src: usize,
        /// Destination buffer; must hold as many bytes as the source.
        dst: usize,
    },
    /// One full-screen-quad draw of a pass: reads the input textures and
    /// writes the pass's own output texture, and nothing else.
    Draw {
        /// The pass's output texture, the draw's sole color target.
        output: usize,
        /// The bound input textures, in binding order.
        inputs: Vec<usize>,
        /// What the fragment shader writes.
        effect: ShaderEffect,
        /// The buffer holding the quad's vertices.
        vertices: usize,
    },
    /// Byte-for-byte copy of one texture's content into another of the same
    /// dimensions.
    CopyTextureToTexture {
        /// Source texture.
        src: usize,
        /// Destination texture.
        dst: usize,
    },
    /// Copies a texture's bytes into a snapshot slot and marks the slot
    /// submitted, making it host readable.
    Capture {
        /// Source texture.
        src: usize,
        /// The receiving snapshot slot.
        slot: usize,
    },
}

/// The mathematical value of a [`Command`].
#[verifier::ext_equal]
pub ghost enum CommandModel {
    /// Copies the whole source buffer over the destination buffer.
    CopyBufferToBuffer { src: usize, dst: usize },
    /// One full-screen-quad draw of a pass.
    Draw { output: usize, inputs: Seq<usize>, effect: ShaderEffect, vertices: usize },
    /// Byte-for-byte texture copy.
    CopyTextureToTexture { src: usize, dst: usize },
    /// Readback of a texture into a snapshot slot.
    Capture { src: usize, slot: usize },
}

impl View for Command {
    type V = CommandModel;

    open spec fn view(&self) -> CommandModel {
        match self {
            Command::CopyBufferToBuffer { src, dst } => CommandModel::CopyBufferToBuffer {
                src: *src,
                dst: *dst,
            },
            Command::Draw { output, inputs, effect, vertices } => CommandModel::Draw {
                output: *output,
                inputs: inputs@,
                effect: *effect,
                vertices: *vertices,
            },
            Command::CopyTextureToTexture { src, dst } => CommandModel::CopyTextureToTexture {
                src: *src,
                dst: *dst,
            },
            Command::Capture { src, slot } => CommandModel::Capture { src: *src, slot: *slot },
        }
    }
}

/// An ordered stream of commands under construction. Ordering within the
/// stream is the tick's sole correctness guarantee.
#[derive(Debug)]
pub struct CommandEncoder {
    /// The commands, in enqueue order.
    pub commands: Vec<Command>,
}

impl View for CommandEncoder {
    type V = Seq<CommandModel>;

    open spec fn view(&self) -> Seq<CommandModel> {
        self.commands@.map_values(|c: Command| c@)
    }
}

impl CommandEncoder {
    /// Appends one command to the stream.
    pub(crate) fn enqueue(&mut self, c: Command)
        ensures
            final(self)@ == old(self)@.push(c@),
    {
        let ghost cv = c@;
        self.commands.push(c);
        proof {
            assert(self@ =~= old(self)@.push(cv));
        }
    }

    /// Enqueues a whole-buffer copy from `src` over `dst`.
    pub fn copy_buffer_to_buffer(&mut self, src: usize, dst: usize)
        ensures
            final(self)@ == old(self)@.push(CommandModel::CopyBufferToBuffer { src, dst }),
    {
        self.enqueue(Command::CopyBufferToBuffer { src, dst });
    }

    /// Enqueues a byte-for-byte copy of one texture's content into another
    /// of the same dimensions.
    pub fn copy_texture_to_texture(&mut self, src: usize, dst: usize)
        ensures
            final(self)@ == old(self)@.push(CommandModel::CopyTextureToTexture { src, dst }),
    {
        self.enqueue(Command::CopyTextureToTexture { src, dst });
    }
}

/// The device: every texture, buffer and snapshot slot it owns. The queue
/// side is [`Device::submit`].
#[derive(Debug)]
pub struct Device {
    /// All created textures, by index.
    pub textures: Vec<Texture>,
    /// All created buffers, by index.
    pub buffers: Vec<Vec<u8>>,
    /// All snapshot slots, by index.
    pub snapshots: Vec<SnapshotSlot>,
}

/// The mathematical value of a [`Device`].
#[verifier::ext_equal]
pub ghost struct DeviceModel {
    /// All textures, by index.
    pub textures: Seq<TextureModel>,
    /// All buffers, by index.
    pub buffers: Seq<Seq<u8>>,
    /// All snapshot slots, by index.
    pub snapshots: Seq<SnapshotSlotModel>,
}

impl View for Device {
    type V = DeviceModel;

    open spec fn view(&self) -> DeviceModel {
        DeviceModel {
            textures: self.textures@.map_values(|t: Texture| t@),
            buffers: self.buffers@.map_values(|b: Vec<u8>| b@),
            snapshots: self.snapshots@.map_values(|s: SnapshotSlot| s@),
        }
    }
}

/// Every texture of the device agrees with its dimensions.
pub open spec fn device_wf(d: DeviceModel) -> bool {
    forall|i: int| 0 <= i < d.textures.len() ==> texture_wf(#[trigger] d.textures[i])
}

/// The bytes a draw writes into its output texture: a deterministic
/// function of the bound inputs in the pre-draw state.
pub open spec fn effect_output(
    effect: ShaderEffect,
    inputs: Seq<usize>,
    d: DeviceModel,
    out_len: nat,
) -> Seq<u8> {
    match effect {
        ShaderEffect::CopyInput { index } => d.textures[inputs[index as int] as int].data,
        ShaderEffect::Fill { value } => Seq::new(out_len, |i: int| value),
    }
}

/// The texture a command writes, if it writes one: a draw writes its
/// pass's output, a texture copy its destination. Buffer copies and
/// captures write no texture.
pub open spec fn texture_written(c: CommandModel) -> Option<usize> {
    match c {
        CommandModel::CopyBufferToBuffer { .. } => None,
        CommandModel::Draw { output, .. } => Some(output),
        CommandModel::CopyTextureToTexture { dst, .. } => Some(dst),
        CommandModel::Capture { .. } => None,
    }
}

/// A command is valid for the state it will execute in: indices in range,
/// and every copy between regions of equal size.
pub open spec fn cmd_wf(d: DeviceModel, c: CommandModel) -> bool {
    match c {
        CommandModel::CopyBufferToBuffer { src, dst } => {
            &&& src < d.buffers.len()
            &&& dst < d.buffers.len()
            &&& d.buffers[src as int].len() == d.buffers[dst as int].len()
        },
        CommandModel::Draw { output, inputs, effect, vertices } => {
            &&& output < d.textures.len()
            &&& vertices < d.buffers.len()
            &&& forall|i: int| 0 <= i < inputs.len() ==> #[trigger] inputs[i] < d.textures.len()
            &&& match effect {
                ShaderEffect::CopyInput { index } => {
                    &&& index < inputs.len()
                    &&& d.textures[inputs[index as int] as int].data.len()
                        == d.textures[output as int].data.len()
                },
                ShaderEffect::Fill { .. } => true,
            }
        },
        CommandModel::CopyTextureToTexture { src, dst } => {
            &&& src < d.textures.len()
            &&& dst < d.textures.len()
            &&& d.textures[src as int].width == d.textures[dst as int].width
            &&& d.textures[src as int].height == d.textures[dst as int].height
            &&& d.textures[src as int].data.len() == d.textures[dst as int].data.len()
        },
        CommandModel::Capture { src, slot } => {
            &&& src < d.textures.len()
            &&& slot < d.snapshots.len()
        },
    }
}

/// The effect of one command on the device: the strict in-order small step
/// of the queue.
pub open spec fn step(d: DeviceModel, c: CommandModel) -> DeviceModel {
    match c {
        CommandModel::CopyBufferToBuffer { src, dst } => DeviceModel {
            buffers: d.buffers.update(dst as int, d.buffers[src as int]),
            ..d
        },
        CommandModel::Draw { output, inputs, effect, vertices } => DeviceModel {
            textures: d.textures.update(
                output as int,
                TextureModel {
                    data: effect_output(effect, inputs, d, d.textures[output as int].data.len()),
                    ..d.textures[output as int]
                },
            ),
            ..d
        },
        CommandModel::CopyTextureToTexture { src, dst } => DeviceModel {
            textures: d.textures.update(
                dst as int,
                TextureModel { data: d.textures[src as int].data, ..d.textures[dst as int] },
            ),
            ..d
        },
        CommandModel::Capture { src, slot } => DeviceModel {
            snapshots: d.snapshots.update(
                slot as int,
                SnapshotSlotModel { submitted: true, data: d.textures[src as int].data },
            ),
            ..d
        },
    }
}

/// Every command of the stream is valid in the state it will execute in.
pub open spec fn cmds_wf(d: DeviceModel, cs: Seq<CommandModel>) -> bool
    decreases cs.len(),
{
    cs.len() == 0 || (cmd_wf(d, cs[0]) && cmds_wf(step(d, cs[0]), cs.drop_first()))
}

/// The state after the queue has executed a whole submitted stream, in
/// submission order.
pub open spec fn run(d: DeviceModel, cs: Seq<CommandModel>) -> DeviceModel
    decreases cs.len(),
{
    if cs.len() == 0 {
        d
    } else {
        run(step(d, cs[0]), cs.drop_first())
    }
}

/// Unrolls [`run`] at the back of a stream.
pub proof fn lemma_run_snoc(d: DeviceModel, cs: Seq<CommandModel>, c: CommandModel)
    ensures
        run(d, cs.push(c)) == step(run(d, cs), c),
    decreases cs.len(),
{
    if cs.len() == 0 {
        assert(cs.push(c)[0] == c);
        assert(cs.push(c).drop_first() =~= Seq::<CommandModel>::empty());
        assert(run(d, cs.push(c)) == run(step(d, c), Seq::<CommandModel>::empty()));
        assert(run(d, cs) == d);
    } else {
        assert(cs.push(c)[0] == cs[0]);
        assert(cs.push(c).drop_first() =~= cs.drop_first().push(c));
        lemma_run_snoc(step(d, cs[0]), cs.drop_first(), c);
        assert(run(d, cs.push(c)) == run(step(d, cs[0]), cs.drop_first().push(c)));
        assert(run(d, cs) == run(step(d, cs[0]), cs.drop_first()));
    }
}

/// A step never creates or destroys a resource and never resizes a texture
/// or a buffer; only contents and snapshot slots change.
pub proof fn lemma_step_preserves_shape(d: DeviceModel, c: CommandModel)
    requires
        cmd_wf(d, c),
    ensures
        step(d, c).textures.len() == d.textures.len(),
        step(d, c).buffers.len() == d.buffers.len(),
        step(d, c).snapshots.len() == d.snapshots.len(),
        forall|i: int|
            0 <= i < d.textures.len() ==> {
                &&& #[trigger] step(d, c).textures[i].width == d.textures[i].width
                &&& step(d, c).textures[i].height == d.textures[i].height
                &&& step(d, c).textures[i].data.len() == d.textures[i].data.len()
            },
        forall|i: int|
            0 <= i < d.buffers.len() ==> #[trigger] step(d, c).buffers[i].len()
                == d.buffers[i].len(),
{
}

/// Law: a pass renderer's output texture dimensions are fixed at creation
/// and never change afterward. No submitted stream, whatever it holds,
/// creates or destroys a resource or resizes a texture or a buffer; only
/// contents and snapshot slots change.
pub proof fn lemma_run_preserves_shape(d: DeviceModel, cs: Seq<CommandModel>)
    requires
        cmds_wf(d, cs),
    ensures
        run(d, cs).textures.len() == d.textures.len(),
        run(d, cs).buffers.len() == d.buffers.len(),
        run(d, cs).snapshots.len() == d.snapshots.len(),
        forall|i: int|
            0 <= i < d.textures.len() ==> {
                &&& #[trigger] run(d, cs).textures[i].width == d.textures[i].width
                &&& run(d, cs).textures[i].height == d.textures[i].height
                &&& run(d, cs).textures[i].data.len() == d.textures[i].data.len()
            },
        forall|i: int|
            0 <= i < d.buffers.len() ==> #[trigger] run(d, cs).buffers[i].len()
                == d.buffers[i].len(),
    decreases cs.len(),
{
    if cs.len() > 0 {
        lemma_step_preserves_shape(d, cs[0]);
        lemma_run_preserves_shape(step(d, cs[0]), cs.drop_first());
    }
}

/// Law: the queue model is deterministic. Submitting the same command
/// stream from the same device state always yields the same final state,
/// and in particular bit-identical snapshot contents; captured frames can
/// only diverge across re-runs if the initial state or the streams differ.
pub proof fn lemma_run_deterministic(d1: DeviceModel, d2: DeviceModel, cs: Seq<CommandModel>)
    requires
        d1 == d2,
    ensures
        run(d1, cs) == run(d2, cs),
        run(d1, cs).snapshots == run(d2, cs).snapshots,
{
}

/// Copies a byte vector; the model's stand-in for moving bytes between
/// host-visible regions.
fn copy_bytes(src: &Vec<u8>) -> (r: Vec<u8>)
    ensures
        r@ == src@,
{
    let mut r: Vec<u8> = Vec::new();
    let mut i: usize = 0;
    while i < src.len()
        invariant
            i <= src@.len(),
            r@ == src@.take(i as int),
        decreases src@.len() - i,
    {
        r.push(src[i]);
        proof {
            assert(r@ =~= src@.take(i + 1));
        }
        i = i + 1;
    }
    proof {
        assert(src@.take(src@.len() as int) =~= src@);
    }
    r
}

/// A vector of `n` copies of one byte.
fn fill_bytes(n: usize, value: u8) -> (r: Vec<u8>)
    ensures
        r@ == Seq::new(n as nat, |i: int| value),
{
    let r: Vec<u8> = vec![value; n];
    proof {
        assert(r@ =~= Seq::new(n as nat, |i: int| value));
    }
    r
}

impl Device {
    /// A fresh device owning nothing.
    pub fn new() -> (d: Device)
        ensures
            d@ == (DeviceModel {
                textures: Seq::<TextureModel>::empty(),
                buffers: Seq::<Seq<u8>>::empty(),
                snapshots: Seq::<SnapshotSlotModel>::empty(),
            }),
    {
        let d = Device { textures: Vec::new(), buffers: Vec::new(), snapshots: Vec::new() };
        proof {
            assert(d@ =~~= (DeviceModel {
                textures: Seq::<TextureModel>::empty(),
                buffers: Seq::<Seq<u8>>::empty(),
                snapshots: Seq::<SnapshotSlotModel>::empty(),
            }));
        }
        d
    }

    /// Creates a buffer holding the given bytes and returns its index.
    pub fn create_buffer_init(&mut self, contents: Vec<u8>) -> (id: usize)
        ensures
            final(self)@ == (DeviceModel {
                buffers: old(self)@.buffers.push(contents@),
                ..old(self)@
            }),
            id == old(self)@.buffers.len(),
    {
        let id = self.buffers.len();
        self.buffers.push(contents);
        proof {
            assert(self@ =~~= (DeviceModel {
                buffers: old(self)@.buffers.push(contents@),
                ..old(self)@
            }));
        }
        id
    }

    /// Opens a fresh, empty command stream.
    pub fn create_command_encoder(&self) -> (e: CommandEncoder)
        ensures
            e@ == Seq::<CommandModel>::empty(),
    {
        let e = CommandEncoder { commands: Vec::new() };
        proof {
            assert(e@ =~= Seq::<CommandModel>::empty());
        }
        e
    }

    /// Submits a whole command stream to the queue, which executes it
    /// strictly in submission order: the resulting state is [`run`] of the
    /// state at submission and the stream.
    pub fn submit(&mut self, encoder: CommandEncoder)
        requires
            cmds_wf(old(self)@, encoder@),
        ensures
            final(self)@ == run(old(self)@, encoder@),
    {
        let ghost d0 = self@;
        let ghost cs = encoder@;
        proof {
            assert(cs.take(0) =~= Seq::<CommandModel>::empty());
            assert(cs.skip(0) =~= cs);
        }
        let n = encoder.commands.len();
        let mut i: usize = 0;
        while i < n
            invariant
                i <= n,
                n == encoder.commands@.len(),
                cs == encoder@,
                self@ == run(d0, cs.take(i as int)),
                cmds_wf(self@, cs.skip(i as int)),
            decreases n - i,
        {
            let ghost before = self@;
            proof {
                assert(cs.skip(i as int)[0] == cs[i as int]);
                assert(cmd_wf(before, cs[i as int]));
            }
            match &encoder.commands[i] {
                Command::CopyBufferToBuffer { src, dst } => {
                    let data = copy_bytes(&self.buffers[*src]);
                    self.buffers[*dst] = data;
                },
                Command::Draw { output, inputs, effect, vertices } => {
                    let out_len = self.textures[*output].data.len();
                    let new_data = match effect {
                        ShaderEffect::CopyInput { index } => copy_bytes(
                            &self.textures[inputs[*index]].data,
                        ),
                        ShaderEffect::Fill { value } => fill_bytes(out_len, *value),
                    };
                    self.textures[*output].data = new_data;
                },
                Command::CopyTextureToTexture { src, dst } => {
                    let data = copy_bytes(&self.textures[*src].data);
                    self.textures[*dst].data = data;
                },
                Command::Capture { src, slot } => {
                    let data = copy_bytes(&self.textures[*src].data);
                    self.snapshots[*slot] = SnapshotSlot { submitted: true, data };
                },
            }
            proof {
                assert(self@ =~~= step(before, cs[i as int]));
                assert(cs.take(i + 1) =~= cs.take(i as int).push(cs[i as int]));
                lemma_run_snoc(d0, cs.take(i as int), cs[i as int]);
                assert(cs.skip(i as int).drop_first() =~= cs.skip(i + 1));
            }
            i = i + 1;
        }
        proof {
            assert(cs.take(n as int) =~= cs);
        }
    }
}

/// Creates a texture holding the given bytes — an image uploaded from
/// host memory — and returns its index.
pub fn create_texture_init(device: &mut Device, width: u32, height: u32, data: Vec<u8>) -> (id:
    usize)
    requires
        data@.len() == width * height * bytes_per_pixel(),
    ensures
        final(device)@ == (DeviceModel {
            textures: old(device)@.textures.push(TextureModel { width, height, data: data@ }),
            ..old(device)@
        }),
        id == old(device)@.textures.len(),
        texture_wf(final(device)@.textures[id as int]),
{
    let ghost dv = data@;
    let id = device.textures.len();
    device.textures.push(Texture { width, height, data });
    proof {
        assert(device@ =~~= (DeviceModel {
            textures: old(device)@.textures.push(TextureModel { width, height, data: dv }),
            ..old(device)@
        }));
    }
    id
}

/// Allocates a texture sized to the given dimensions, cleared to zero,
/// usable as a render target, a sampled input and a copy source or
/// destination, and returns its index. The sample count of the working
/// textures is one; multisampling enters only at presentation.
pub fn create_app_texture(device: &mut Device, width: u32, height: u32, msaa_samples: u32) -> (id:
    usize)
    requires
        width * height * bytes_per_pixel() <= usize::MAX,
    ensures
        final(device)@ == (DeviceModel {
            textures: old(device)@.textures.push(
                TextureModel {
                    width,
                    height,
                    data: Seq::new((width * height * bytes_per_pixel()) as nat, |i: int| 0u8),
                },
            ),
            ..old(device)@
        }),
        id == old(device)@.textures.len(),
        texture_wf(final(device)@.textures[id as int]),
{
    let size: usize = (width as usize) * (height as usize) * 4;
    let data = fill_bytes(size, 0);
    let id = device.textures.len();
    device.textures.push(Texture { width, height, data });
    proof {
        assert(device@ =~~= (DeviceModel {
            textures: old(device)@.textures.push(
                TextureModel {
                    width,
                    height,
                    data: Seq::new((width * height * bytes_per_pixel()) as nat, |i: int| 0u8),
                },
            ),
            ..old(device)@
        }));
    }
    id
}

} // verus!
