//! Asynchronous frame capture, decoupled from the render loop.
//!
//! A capture enqueues GPU work and returns a handle, not pixels. The
//! pixels become host readable only once the command stream containing
//! the capture has been submitted and executed; reading a handle whose
//! enqueue was never submitted fails rather than silently handing back
//! stale or blank data — the documented ordering hazard.

use crate::gpu::{Command, CommandEncoder, CommandModel, Device, DeviceModel, SnapshotSlot, SnapshotSlotModel};
use crate::CaptureError;
use vstd::prelude::*;

verus! {

/// A pending, asynchronously completing readback of a texture's pixels:
/// a handle to a snapshot slot of the device.
#[derive(Debug, Clone, Copy, PartialEq, Eq, Structural)]
pub struct Snapshot {
    /// The snapshot slot that receives the pixels.
    pub slot: usize,
}

impl Snapshot {
    /// Reads the captured pixels. Succeeds exactly when the command
    /// stream containing this snapshot's enqueue has been submitted; a
    /// premature read fails with [`CaptureError::NotSubmitted`], never
    /// with stale data.
    pub fn read(&self, device: &Device) -> (r: Result<Vec<u8>, CaptureError>)
        requires
            self.slot < device@.snapshots.len(),
        ensures
            device@.snapshots[self.slot as int].submitted ==> {
                &&& r is Ok
                &&& r->Ok_0@ == device@.snapshots[self.slot as int].data
            },
            !device@.snapshots[self.slot as int].submitted ==> r == Err::<
                Vec<u8>,
                CaptureError,
            >(CaptureError::NotSubmitted),
    {
        let slot = &device.snapshots[self.slot];
        if !slot.submitted {
            return Err(CaptureError::NotSubmitted);
        }
        let mut data: Vec<u8> = Vec::new();
        let mut i: usize = 0;
        while i < slot.data.len()
            invariant
                i <= slot.data@.len(),
                data@ == slot.data@.take(i as int),
            decreases slot.data@.len() - i,
        {
            data.push(slot.data[i]);
            proof {
                assert(data@ =~= slot.data@.take(i + 1));
            }
            i = i + 1;
        }
        proof {
            assert(slot.data@.take(slot.data@.len() as int) =~= slot.data@);
        }
        Ok(data)
    }
}

/// One captured frame, ready for the image encoder: the pixels of the
/// captured texture and the tick index that names its output file.
#[derive(Debug)]
pub struct CapturedFrame {
    /// The tick index at which the snapshot was taken.
    pub index: u64,
    /// The captured pixel bytes.
    pub data: Vec<u8>,
}

/// Takes one snapshot per tick and hands the finished frames out in tick
/// order. The image encode and disk write happen outside the render
/// loop's critical path, on the bytes this type returns.
#[derive(Debug)]
pub struct FrameCapturer {
    /// The snapshot taken this tick, not yet saved.
    pub pending: Option<Snapshot>,
    /// The index the next saved frame is named with.
    pub next_frame: u64,
}

impl FrameCapturer {
    /// A capturer with no pending snapshot, numbering from zero.
    pub fn new() -> (c: FrameCapturer)
        ensures
            c == (FrameCapturer { pending: None::<Snapshot>, next_frame: 0u64 }),
    {
        FrameCapturer { pending: None, next_frame: 0 }
    }

    /// Enqueues a capture of `texture` into a fresh snapshot slot: a
    /// resolve and format conversion into a host-readable staging area,
    /// as GPU commands. Non-blocking: the slot is not submitted and holds
    /// nothing readable until the stream is submitted.
    pub fn take_snapshot(&mut self, device: &mut Device, encoder: &mut CommandEncoder, texture: usize)
        requires
            texture < old(device)@.textures.len(),
        ensures
            final(device)@ == (DeviceModel {
                snapshots: old(device)@.snapshots.push(
                    SnapshotSlotModel { submitted: false, data: Seq::<u8>::empty() },
                ),
                ..old(device)@
            }),
            final(encoder)@ == old(encoder)@.push(
                CommandModel::Capture { src: texture, slot: old(device)@.snapshots.len() as usize },
            ),
            *final(self) == (FrameCapturer {
                pending: Some(Snapshot { slot: old(device)@.snapshots.len() as usize }),
                next_frame: old(self).next_frame,
            }),
    {
        let slot = device.snapshots.len();
        device.snapshots.push(SnapshotSlot { submitted: false, data: Vec::new() });
        encoder.enqueue(Command::Capture { src: texture, slot });
        self.pending = Some(Snapshot { slot });
        proof {
            assert(device@ =~~= (DeviceModel {
                snapshots: old(device)@.snapshots.push(
                    SnapshotSlotModel { submitted: false, data: Seq::<u8>::empty() },
                ),
                ..old(device)@
            }));
        }
    }

    /// Hands out the frame captured by the pending snapshot. With no
    /// pending snapshot, or with one whose stream was never submitted,
    /// it fails and the frame is dropped; a capture failure never stops
    /// the render loop. On success the frame carries the next index.
    pub fn save_frame(&mut self, device: &Device) -> (r: Result<CapturedFrame, CaptureError>)
        requires
            old(self).next_frame < u64::MAX,
            (match old(self).pending {
                Some(s) => s.slot < device@.snapshots.len(),
                None => true,
            }),
        ensures
            old(self).pending is None ==> {
                &&& r == Err::<CapturedFrame, CaptureError>(CaptureError::NothingCaptured)
                &&& *final(self) == *old(self)
            },
            (match old(self).pending {
                Some(s) => {
                    &&& final(self).pending is None
                    &&& if device@.snapshots[s.slot as int].submitted {
                        &&& r is Ok
                        &&& r->Ok_0.index == old(self).next_frame
                        &&& r->Ok_0.data@ == device@.snapshots[s.slot as int].data
                        &&& final(self).next_frame == old(self).next_frame + 1
                    } else {
                        &&& r == Err::<CapturedFrame, CaptureError>(CaptureError::NotSubmitted)
                        &&& final(self).next_frame == old(self).next_frame
                    }
                },
                None => true,
            }),
    {
        match self.pending {
            None => Err(CaptureError::NothingCaptured),
            Some(snapshot) => {
                self.pending = None;
                match snapshot.read(device) {
                    Ok(data) => {
                        let index = self.next_frame;
                        self.next_frame = self.next_frame + 1;
                        Ok(CapturedFrame { index, data })
                    },
                    Err(e) => Err(e),
                }
            },
        }
    }
}

} // verus!
