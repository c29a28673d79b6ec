//! Copying generated images back into host memory.
//!
//! A producer registers an image for one capture. The registration travels to
//! the consumer side once, the consumer sends the image's bytes through a
//! channel, and the registration is gone.

use vstd::prelude::*;
use crossbeam_channel::Receiver;
use crossbeam_channel::Sender;
use crate::image::ComputeNoiseSize;
use crate::image::ImageHandle;
use crate::image::ImageSizes;
use crate::readback::util::lemma_align_is_sum;
use crate::readback::util::spec_align_byte_size;
use crate::readback::util::spec_get_aligned_size;
use crate::table::Table;

pub mod extract;
pub mod prepare;
pub mod read;
pub mod render;
pub mod util;

verus! {

/// The sending end of a channel of `crossbeam_channel`; opaque to the proofs.
#[verifier::external_type_specification]
#[verifier::external_body]
#[verifier::reject_recursive_types(T)]
pub struct ExSender<T>(crossbeam_channel::Sender<T>);

/// The receiving end of a channel of `crossbeam_channel`; opaque to the proofs.
#[verifier::external_type_specification]
#[verifier::external_body]
#[verifier::reject_recursive_types(T)]
pub struct ExReceiver<T>(crossbeam_channel::Receiver<T>);

/// `crossbeam_channel::unbounded`: makes a channel that never is full. Nothing
/// is claimed of the two ends.
#[verifier::external_body]
fn unbounded_channel() -> (ends: (Sender<Vec<u8>>, Receiver<Vec<u8>>)) {
    crossbeam_channel::unbounded()
}

/// `Receiver::try_recv`: takes a waiting message without blocking. Whether one
/// waits depends on the sending side, so nothing is claimed of the result.
#[verifier::external_body]
fn try_receive(receiver: &Receiver<Vec<u8>>) -> (message: Option<Vec<u8>>) {
    receiver.try_recv().ok()
}

/// `Sender::send`: hands a message to the channel and says whether it was
/// taken; it is not when every receiver is gone. Every sender of this library
/// belongs to an unbounded channel, on which the call does not block.
#[verifier::external_body]
fn send_bytes(sender: &Sender<Vec<u8>>, bytes: Vec<u8>) -> (sent: bool) {
    sender.send(bytes).is_ok()
}

/// `Sender::clone`: another sender of the same channel.
#[verifier::external_body]
fn clone_sender(sender: &Sender<Vec<u8>>) -> (copy: Sender<Vec<u8>>) {
    sender.clone()
}

/// A staging buffer that the host is to provide: `size` bytes, mappable for
/// reading, a copy destination.
#[derive(Clone, Copy, Debug, PartialEq, Eq, Structural)]
pub struct StagingBuffer {
    pub size: u64,
}

/// Whether the staging buffer of an image of this size, of `pixel_size` bytes
/// to the texel, can be measured in 32 bits: its padded row, and all its rows.
pub open spec fn spec_supports_readback(size: ComputeNoiseSize, pixel_size: u32) -> bool {
    &&& spec_align_byte_size(size.spec_width() * pixel_size) <= u32::MAX
    &&& spec_get_aligned_size(
        size.spec_width() as int,
        size.spec_height() as int,
        pixel_size as int,
    ) <= u32::MAX
}

/// Decides [`spec_supports_readback`].
pub fn supports_readback(size: ComputeNoiseSize, pixel_size: u32) -> (supported: bool)
    ensures
        supported == spec_supports_readback(size, pixel_size),
{
    assert(size.spec_width() * pixel_size <= 0xffff_ffff * 0xffff_ffff) by (nonlinear_arith)
        requires
            size.spec_width() <= 0xffff_ffff,
            pixel_size <= 0xffff_ffff,
    ;
    let row: u64 = size.width() as u64 * pixel_size as u64;
    let height: u64 = size.height() as u64;
    let aligned: u64 = row + (256 - row % 256);
    proof {
        lemma_align_is_sum(row as int);
    }
    if aligned > u32::MAX as u64 {
        return false;
    }
    assert(height * aligned <= 0xffff_ffff * 0xffff_ffff) by (nonlinear_arith)
        requires
            height <= 0xffff_ffff,
            aligned <= 0xffff_ffff,
    ;
    height * aligned <= u32::MAX as u64
}

/// The consumer's end of one registration: where the bytes go, how large the
/// image is and how many bytes one of its texels takes, and the staging
/// buffer once it is planned.
pub struct ReadbackSender {
    sender: Sender<Vec<u8>>,
    size: ComputeNoiseSize,
    pixel_size: u32,
    buffer: Option<StagingBuffer>,
}

impl ReadbackSender {
    pub closed spec fn spec_size(&self) -> ComputeNoiseSize {
        self.size
    }

    pub closed spec fn spec_pixel_size(&self) -> u32 {
        self.pixel_size
    }

    pub closed spec fn spec_buffer(&self) -> Option<StagingBuffer> {
        self.buffer
    }

    /// The staging buffer of the image can be measured in 32 bits.
    pub open spec fn wf(&self) -> bool {
        spec_supports_readback(self.spec_size(), self.spec_pixel_size())
    }

    /// Two registrations are alike when size, pixel size and staging buffer
    /// agree; the channel is not compared.
    pub open spec fn alike(&self, other: &ReadbackSender) -> bool {
        &&& self.spec_size() == other.spec_size()
        &&& self.spec_pixel_size() == other.spec_pixel_size()
        &&& self.spec_buffer() == other.spec_buffer()
    }

    /// The bytes of one texel of the image.
    pub fn pixel_size(&self) -> (pixel_size: u32)
        ensures
            pixel_size == self.spec_pixel_size(),
    {
        self.pixel_size
    }

    pub fn size(&self) -> (size: ComputeNoiseSize)
        ensures
            size == self.spec_size(),
    {
        self.size
    }

    pub fn buffer(&self) -> (buffer: Option<StagingBuffer>)
        ensures
            buffer == self.spec_buffer(),
    {
        self.buffer
    }

    /// Makes `buffer` the staging buffer of the registration.
    pub(crate) fn set_buffer(&mut self, buffer: Option<StagingBuffer>)
        ensures
            final(self).spec_size() == old(self).spec_size(),
            final(self).spec_pixel_size() == old(self).spec_pixel_size(),
            final(self).spec_buffer() == buffer,
    {
        self.buffer = buffer;
    }

    /// A second handle on the same channel, with the same size and buffer.
    pub(crate) fn duplicate(&self) -> (copy: ReadbackSender)
        ensures
            copy.alike(self),
    {
        ReadbackSender {
            sender: clone_sender(&self.sender),
            size: self.size,
            pixel_size: self.pixel_size,
            buffer: self.buffer,
        }
    }

    /// Sends `bytes` to the producer; false when nobody listens any more.
    pub(crate) fn send(&self, bytes: Vec<u8>) -> (sent: bool) {
        send_bytes(&self.sender, bytes)
    }
}

/// The consumer's registrations, by image.
pub struct ComputeNoiseReadbackSender(pub Table<ImageHandle, ReadbackSender>);

impl ComputeNoiseReadbackSender {
    /// The table is in good order, and so is every registration in it.
    pub open spec fn wf(&self) -> bool {
        &&& self.0.wf()
        &&& forall|image: ImageHandle|
            self.0.contains(image) ==> (#[trigger] self.0.value_of(image)).wf()
    }

    /// Whether the consumer holds a registration of `image`.
    pub open spec fn contains(&self, image: ImageHandle) -> bool {
        self.0.contains(image)
    }

    pub fn new() -> (senders: Self)
        ensures
            senders.wf(),
            forall|image: ImageHandle| !senders.contains(image),
            senders.0.keys() == Seq::<ImageHandle>::empty(),
    {
        ComputeNoiseReadbackSender(Table::new())
    }

    pub fn contains_key(&self, image: ImageHandle) -> (found: bool)
        requires
            self.wf(),
        ensures
            found == self.contains(image),
    {
        self.0.contains_key(&image)
    }

    pub fn len(&self) -> (len: usize)
        requires
            self.wf(),
        ensures
            len == self.0.keys().len(),
    {
        self.0.len()
    }
}

/// What became of the bytes of an image.
#[derive(Clone, Copy, Debug, PartialEq, Eq, Structural)]
pub enum ReadbackDelivery {
    /// The image has no registration: nothing was sent.
    NotQueued,
    /// The bytes were handed to the channel.
    Sent,
    /// The producer no longer listens: the bytes were dropped.
    ReceiverGone,
}

impl ComputeNoiseReadbackSender {
    /// Sends `payload` to the producer that registered `image`, and forgets
    /// the registration: a capture is delivered once. For an image without
    /// registration nothing is sent.
    pub fn deliver(&mut self, image: ImageHandle, payload: Vec<u8>) -> (delivery: ReadbackDelivery)
        requires
            old(self).wf(),
        ensures
            final(self).wf(),
            delivery is NotQueued <==> !old(self).contains(image),
            !final(self).contains(image),
            forall|other: ImageHandle|
                other != image ==> (final(self).contains(other) <==> old(self).contains(other)),
            forall|other: ImageHandle|
                final(self).contains(other) ==> {
                    final(self).0.value_of(other) == old(self).0.value_of(other)
                },
            final(self).0.entries() == old(self).0.entries().remove(image),
    {
        let delivery = match self.0.get(&image) {
            Some(readback) => {
                if readback.send(payload) {
                    ReadbackDelivery::Sent
                } else {
                    ReadbackDelivery::ReceiverGone
                }
            },
            None => ReadbackDelivery::NotQueued,
        };
        self.0.remove(&image);
        delivery
    }
}

/// The consumer's registrations `after` are those of `before` and, newly made
/// or made anew, those of the images that the producer `main` has asked for
/// and holds a sender for.
pub open spec fn spec_extracted(
    main: ComputeNoiseReadback,
    queued: Seq<ImageHandle>,
    before: ComputeNoiseReadbackSender,
    after: ComputeNoiseReadbackSender,
) -> bool {
    &&& forall|image: ImageHandle|
        after.contains(image) <==> before.contains(image) || (queued.contains(image)
            && main.senders().contains(image))
    &&& forall|image: ImageHandle|
        queued.contains(image) && main.senders().contains(image) ==> (
        #[trigger] after.0.value_of(image)).alike(&main.senders().value_of(image))
    &&& forall|image: ImageHandle|
        before.contains(image) && !(queued.contains(image) && main.senders().contains(image))
            ==> #[trigger] after.0.value_of(image) == before.0.value_of(image)
}

/// The producer's side: for each registered image a receiver and the sender
/// that goes with it, and the images whose capture is asked for and not yet
/// handed to the consumer.
pub struct ComputeNoiseReadback {
    receivers: Table<ImageHandle, Receiver<Vec<u8>>>,
    senders: Table<ImageHandle, ReadbackSender>,
    queue: Table<ImageHandle, ()>,
}

impl ComputeNoiseReadback {
    /// The receiving ends, by image.
    pub closed spec fn receivers(&self) -> Table<ImageHandle, Receiver<Vec<u8>>> {
        self.receivers
    }

    /// The sending ends with the sizes of their images, by image.
    pub closed spec fn senders(&self) -> Table<ImageHandle, ReadbackSender> {
        self.senders
    }

    /// The images asked for since the last hand-over, each once, in the order
    /// of their first request.
    pub closed spec fn queued(&self) -> Seq<ImageHandle> {
        self.queue.keys()
    }

    /// The list of what is asked for is a table in good order.
    pub closed spec fn queue_wf(&self) -> bool {
        self.queue.wf()
    }

    /// The tables are in good order, and so is every registration.
    pub open spec fn wf(&self) -> bool {
        &&& self.receivers().wf()
        &&& self.senders().wf()
        &&& self.queue_wf()
        &&& forall|image: ImageHandle|
            self.senders().contains(image) ==> (#[trigger] self.senders().value_of(image)).wf()
    }

    /// An image is registered when it has a receiver.
    pub open spec fn registered(&self, image: ImageHandle) -> bool {
        self.receivers().contains(image)
    }

    pub fn new() -> (readback: Self)
        ensures
            readback.wf(),
            readback.queued() == Seq::<ImageHandle>::empty(),
            readback.receivers().keys() == Seq::<ImageHandle>::empty(),
            readback.senders().keys() == Seq::<ImageHandle>::empty(),
    {
        ComputeNoiseReadback { receivers: Table::new(), senders: Table::new(), queue: Table::new() }
    }

    pub fn is_registered(&self, image: ImageHandle) -> (registered: bool)
        requires
            self.wf(),
        ensures
            registered == self.registered(image),
    {
        self.receivers.contains_key(&image)
    }

    pub fn is_queued(&self, image: ImageHandle) -> (queued: bool)
        requires
            self.wf(),
        ensures
            queued == self.queued().contains(image),
    {
        self.queue.contains_key(&image)
    }

    /// Asks for one capture of `image`. An image that is not registered yet
    /// gets a channel and is registered with its size from `images` and with
    /// `pixel_size`, the bytes of one of its texels. Asking again before the
    /// hand-over changes nothing.
    pub fn queue(&mut self, images: &ImageSizes, image: ImageHandle, pixel_size: u32)
        requires
            old(self).wf(),
            images.wf(),
            !old(self).registered(image) ==> images.contains(image) && spec_supports_readback(
                images.value_of(image),
                pixel_size,
            ),
        ensures
            final(self).wf(),
            final(self).queued() == (if old(self).queued().contains(image) {
                old(self).queued()
            } else {
                old(self).queued().push(image)
            }),
            forall|other: ImageHandle|
                final(self).registered(other) <==> old(self).registered(other) || other == image,
            old(self).registered(image) ==> final(self).receivers() == old(self).receivers()
                && final(self).senders() == old(self).senders(),
            !old(self).registered(image) ==> {
                &&& final(self).senders().contains(image)
                &&& final(self).senders().value_of(image).spec_size() == images.value_of(image)
                &&& final(self).senders().value_of(image).spec_pixel_size() == pixel_size
                &&& final(self).senders().value_of(image).spec_buffer() is None
            },
            forall|other: ImageHandle|
                other != image ==> {
                    &&& final(self).senders().contains(other) <==> old(self).senders().contains(
                        other,
                    )
                    &&& old(self).senders().contains(other) ==> final(self).senders().value_of(
                        other,
                    ) == old(self).senders().value_of(other)
                },
    {
        if !self.receivers.contains_key(&image) {
            self.add(images, image, pixel_size);
        }
        self.queue.insert(image, ());
    }

    fn add(&mut self, images: &ImageSizes, image: ImageHandle, pixel_size: u32)
        requires
            old(self).wf(),
            images.wf(),
            images.contains(image),
            spec_supports_readback(images.value_of(image), pixel_size),
        ensures
            final(self).wf(),
            final(self).queued() == old(self).queued(),
            forall|other: ImageHandle|
                final(self).receivers().contains(other) <==> old(self).receivers().contains(other)
                    || other == image,
            forall|other: ImageHandle|
                final(self).senders().contains(other) <==> old(self).senders().contains(other)
                    || other == image,
            final(self).senders().value_of(image).spec_size() == images.value_of(image),
            final(self).senders().value_of(image).spec_pixel_size() == pixel_size,
            final(self).senders().value_of(image).spec_buffer() is None,
            forall|other: ImageHandle|
                other != image && old(self).senders().contains(other) ==> {
                    final(self).senders().value_of(other) == old(self).senders().value_of(other)
                },
    {
        let size: ComputeNoiseSize = *images.get(&image).unwrap();
        let (s, r) = unbounded_channel();
        let sender = ReadbackSender { sender: s, size, pixel_size, buffer: None };
        self.receivers.insert(image, r);
        self.senders.insert(image, sender);
    }

    /// Hands the registrations of the images that were asked for to the
    /// consumer, and forgets that they were asked for. The producer keeps its
    /// receivers and senders.
    pub fn extract_into(&mut self, readback_sender: &mut ComputeNoiseReadbackSender)
        requires
            old(self).wf(),
            old(readback_sender).wf(),
        ensures
            final(self).wf(),
            final(readback_sender).wf(),
            final(self).queued() == Seq::<ImageHandle>::empty(),
            final(self).receivers() == old(self).receivers(),
            final(self).senders() == old(self).senders(),
            spec_extracted(
                *old(self),
                old(self).queued(),
                *old(readback_sender),
                *final(readback_sender),
            ),
    {
        let mut i: usize = 0;
        proof {
            assert(self.queued().take(0) =~= Seq::<ImageHandle>::empty());
        }
        while i < self.queue.len()
            invariant
                self.wf(),
                readback_sender.wf(),
                *self == *old(self),
                i <= self.queued().len(),
                spec_extracted(
                    *self,
                    self.queued().take(i as int),
                    *old(readback_sender),
                    *readback_sender,
                ),
            decreases self.queued().len() - i,
        {
            let handle = self.queue.key_at(i);
            let ghost before = *readback_sender;
            let ghost done = self.queued().take(i as int);
            let ghost next = self.queued().take(i + 1);
            proof {
                assert(next =~= done.push(handle));
                assert forall|image: ImageHandle| next.contains(image) <==> done.contains(image)
                    || image == handle by {
                    if done.contains(image) {
                        let j = choose|j: int| 0 <= j < done.len() && done[j] == image;
                        assert(next[j] == image);
                    }
                    if image == handle {
                        assert(next[i as int] == image);
                    }
                    if next.contains(image) {
                        let j = choose|j: int| 0 <= j < next.len() && next[j] == image;
                        if j < i {
                            assert(done[j] == image);
                        }
                    }
                }
                assert(!done.contains(handle)) by {
                    if done.contains(handle) {
                        let j = choose|j: int| 0 <= j < done.len() && done[j] == handle;
                        assert(self.queued()[j] == self.queued()[i as int]);
                    }
                }
            }
            match self.senders.get(&handle) {
                Some(sender) => {
                    let copy = sender.duplicate();
                    proof {
                        assert(self.senders().value_of(handle).wf());
                    }
                    readback_sender.0.insert(handle, copy);
                },
                None => {},
            }
            i = i + 1;
        }
        assert(self.queued().take(i as int) =~= self.queued());
        self.queue.clear();
    }

    /// Forgets the registration of `image`: its receiver and its sender.
    pub fn remove(&mut self, image: &ImageHandle)
        requires
            old(self).wf(),
        ensures
            final(self).wf(),
            final(self).queued() == old(self).queued(),
            final(self).receivers().entries() == old(self).receivers().entries().remove(*image),
            final(self).senders().entries() == old(self).senders().entries().remove(*image),
            forall|other: ImageHandle|
                final(self).registered(other) <==> old(self).registered(other) && other != *image,
    {
        self.receivers.remove(image);
        self.senders.remove(image);
    }

    /// Polls for the bytes of `image` without blocking. An image that is not
    /// registered has none; for a registered one the channel decides.
    pub fn receive(&self, handle: ImageHandle) -> (data: Option<Vec<u8>>)
        requires
            self.wf(),
        ensures
            !self.registered(handle) ==> data is None,
    {
        match self.receivers.get(&handle) {
            Some(receiver) => try_receive(receiver),
            None => None,
        }
    }
}

/// An image is at rest when no capture of it is asked for and the consumer
/// holds no registration of it.
pub open spec fn spec_at_rest(
    main: ComputeNoiseReadback,
    readback_sender: ComputeNoiseReadbackSender,
    image: ImageHandle,
) -> bool {
    &&& !main.queued().contains(image)
    &&& !readback_sender.contains(image)
}

/// A step that is not a request for a capture of `image`: a hand-over; or a
/// request for a capture of another image; or anything that asks for nothing
/// and gives the consumer no registration, as deliveries, the planning of
/// staging buffers, polling and forgetting do.
pub open spec fn spec_step_without_request(
    main_before: ComputeNoiseReadback,
    sender_before: ComputeNoiseReadbackSender,
    main_after: ComputeNoiseReadback,
    sender_after: ComputeNoiseReadbackSender,
    image: ImageHandle,
) -> bool {
    ||| {
        &&& spec_extracted(main_before, main_before.queued(), sender_before, sender_after)
        &&& main_after.queued() == Seq::<ImageHandle>::empty()
    }
    ||| {
        &&& forall|other: ImageHandle|
            sender_after.contains(other) ==> sender_before.contains(other)
        &&& exists|other: ImageHandle|
            other != image && main_after.queued() == (if main_before.queued().contains(other) {
                main_before.queued()
            } else {
                main_before.queued().push(other)
            })
    }
    ||| {
        &&& forall|other: ImageHandle|
            sender_after.contains(other) ==> sender_before.contains(other)
        &&& main_after.queued() == main_before.queued()
    }
}

/// A capture is delivered once. After a delivery the consumer holds no
/// registration of the image; if no capture of it is asked for either, the
/// image is at rest, and it stays at rest through every step that is not a
/// new request for a capture of it. For an image at rest nothing is sent: a
/// delivery finds no registration.
pub proof fn lemma_rest_lasts_until_requested(
    main_before: ComputeNoiseReadback,
    sender_before: ComputeNoiseReadbackSender,
    main_after: ComputeNoiseReadback,
    sender_after: ComputeNoiseReadbackSender,
    image: ImageHandle,
)
    requires
        spec_at_rest(main_before, sender_before, image),
        spec_step_without_request(main_before, sender_before, main_after, sender_after, image),
    ensures
        spec_at_rest(main_after, sender_after, image),
{
    if main_after.queued().contains(image) {
        let i = choose|i: int|
            0 <= i < main_after.queued().len() && main_after.queued()[i] == image;
        if main_after.queued() != main_before.queued() && main_after.queued()
            != Seq::<ImageHandle>::empty() {
            let other = choose|other: ImageHandle|
                other != image && main_after.queued() == (if main_before.queued().contains(
                    other,
                ) {
                    main_before.queued()
                } else {
                    main_before.queued().push(other)
                });
            if i < main_before.queued().len() {
                assert(main_before.queued()[i] == image);
            }
        }
    }
}

} // verus!
