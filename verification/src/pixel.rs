//! Pixel formats and channel tokens.
//!
//! A format is a fixed layout of four bytes; a channel is the meaning of one
//! of them. Each format has a table that says at which byte each channel
//! lies, so that code which reads or writes "the red of this pixel" need not
//! know the layout.
use vstd::prelude::*;

verus! {

/// The meaning of one byte of a pixel, whatever the byte order of its format.
#[derive(Clone, Copy, Debug, PartialEq, Eq, Structural)]
pub enum Channel {
    Red,
    Green,
    Blue,
    Alpha,
}

/// A value that stands for one channel, so that a pixel can be indexed by it.
pub trait ChannelToken: Sized {
    /// The channel that values of this type stand for.
    spec fn spec_channel() -> Channel;

    /// The channel that this value stands for.
    fn channel(&self) -> (channel: Channel)
        ensures
            channel == Self::spec_channel(),
    ;
}

/// Stands for the red of a pixel.
#[derive(Clone, Copy, Debug)]
pub struct Red;

/// Stands for the green of a pixel.
#[derive(Clone, Copy, Debug)]
pub struct Green;

/// Stands for the blue of a pixel.
#[derive(Clone, Copy, Debug)]
pub struct Blue;

/// Stands for the alpha of a pixel.
#[derive(Clone, Copy, Debug)]
pub struct Alpha;

impl ChannelToken for Red {
    open spec fn spec_channel() -> Channel {
        Channel::Red
    }

    fn channel(&self) -> (channel: Channel) {
        Channel::Red
    }
}

impl ChannelToken for Green {
    open spec fn spec_channel() -> Channel {
        Channel::Green
    }

    fn channel(&self) -> (channel: Channel) {
        Channel::Green
    }
}

impl ChannelToken for Blue {
    open spec fn spec_channel() -> Channel {
        Channel::Blue
    }

    fn channel(&self) -> (channel: Channel) {
        Channel::Blue
    }
}

impl ChannelToken for Alpha {
    open spec fn spec_channel() -> Channel {
        Channel::Alpha
    }

    fn channel(&self) -> (channel: Channel) {
        Channel::Alpha
    }
}

/// A pixel format: four bytes and a table that gives each channel its byte.
pub trait Pixel: std::fmt::Debug + Default + Clone + Copy {
    /// The bytes of a pixel, as the format holds them.
    type Data;

    /// The four bytes of the pixel, as they lie in memory.
    spec fn bytes(&self) -> Seq<u8>;

    /// The bytes that `data` holds.
    spec fn bytes_of(data: &Self::Data) -> Seq<u8>;

    /// The table of the format: at which byte `channel` lies.
    spec fn spec_offset(channel: Channel) -> int;

    /// A pixel has four bytes, and the table gives each channel a byte of its
    /// own among them.
    proof fn lemma_layout(&self)
        ensures
            self.bytes().len() == 4,
            forall|c: Channel| 0 <= #[trigger] Self::spec_offset(c) < 4,
            forall|c: Channel, d: Channel|
                c != d ==> #[trigger] Self::spec_offset(c) != #[trigger] Self::spec_offset(d),
    ;

    /// At which byte `channel` lies.
    fn offset(channel: Channel) -> (offset: usize)
        ensures
            offset == Self::spec_offset(channel),
            offset < 4,
    ;

    /// The bytes of the pixel.
    fn data(&self) -> (data: &Self::Data)
        ensures
            Self::bytes_of(data) == self.bytes(),
    ;

    /// The bytes of the pixel, to be written through.
    fn data_mut(&mut self) -> (data: &mut Self::Data)
        ensures
            Self::bytes_of(data) == old(self).bytes(),
            final(self).bytes() == Self::bytes_of(final(data)),
    ;

    /// The byte of `channel`.
    fn get(&self, channel: Channel) -> (byte: u8)
        ensures
            byte == self.bytes()[Self::spec_offset(channel)],
    ;

    /// Stores `byte` as the byte of `channel`; the other bytes stay.
    fn set(&mut self, channel: Channel, byte: u8)
        ensures
            final(self).bytes() == old(self).bytes().update(Self::spec_offset(channel), byte),
    ;
}

/// A pixel in the order blue, green, red, alpha.
#[derive(Clone, Copy, Debug)]
pub struct PixelBGRX {
    colors: [u8; 4],
}

impl Default for PixelBGRX {
    /// The pixel whose four bytes are zero.
    fn default() -> (pixel: PixelBGRX)
        ensures
            pixel.bytes() == seq![0u8, 0u8, 0u8, 0u8],
    {
        let pixel = PixelBGRX { colors: [0u8, 0u8, 0u8, 0u8] };
        assert(pixel.bytes() =~= seq![0u8, 0u8, 0u8, 0u8]);
        pixel
    }
}

impl Pixel for PixelBGRX {
    type Data = [u8; 4];

    closed spec fn bytes(&self) -> Seq<u8> {
        self.colors@
    }

    open spec fn bytes_of(data: &[u8; 4]) -> Seq<u8> {
        data@
    }

    open spec fn spec_offset(channel: Channel) -> int {
        match channel {
            Channel::Blue => 0,
            Channel::Green => 1,
            Channel::Red => 2,
            Channel::Alpha => 3,
        }
    }

    proof fn lemma_layout(&self) {
    }

    fn offset(channel: Channel) -> (offset: usize) {
        match channel {
            Channel::Blue => 0,
            Channel::Green => 1,
            Channel::Red => 2,
            Channel::Alpha => 3,
        }
    }

    fn data(&self) -> (data: &[u8; 4]) {
        &self.colors
    }

    fn data_mut(&mut self) -> (data: &mut [u8; 4]) {
        &mut self.colors
    }

    fn get(&self, channel: Channel) -> (byte: u8) {
        self.colors[Self::offset(channel)]
    }

    fn set(&mut self, channel: Channel, byte: u8) {
        self.colors[Self::offset(channel)] = byte;
    }
}

impl<C: ChannelToken> std::ops::Index<C> for PixelBGRX {
    type Output = u8;

    /// The byte of the channel that `token` stands for.
    fn index(&self, token: C) -> (byte: &u8)
        ensures
            *byte == self.bytes()[Self::spec_offset(C::spec_channel())],
    {
        &self.colors[Self::offset(token.channel())]
    }
}

impl<C: ChannelToken> vstd::std_specs::core::IndexSpecImpl<C> for PixelBGRX {
    /// Every token indexes every pixel.
    open spec fn index_req(&self, index: &C) -> bool {
        true
    }
}

impl<C: ChannelToken> std::ops::IndexMut<C> for PixelBGRX {
    /// The byte of the channel that `token` stands for, to be written
    /// through; the other bytes stay.
    fn index_mut(&mut self, token: C) -> (byte: &mut u8)
        ensures
            *byte == old(self).bytes()[Self::spec_offset(C::spec_channel())],
            final(self).bytes() == old(self).bytes().update(
                Self::spec_offset(C::spec_channel()),
                *final(byte),
            ),
    {
        &mut self.colors[Self::offset(token.channel())]
    }
}

/// A pixel in the order alpha, red, green, blue.
#[derive(Clone, Copy, Debug)]
pub struct PixelXRGB {
    colors: [u8; 4],
}

impl Default for PixelXRGB {
    /// The pixel whose four bytes are zero.
    fn default() -> (pixel: PixelXRGB)
        ensures
            pixel.bytes() == seq![0u8, 0u8, 0u8, 0u8],
    {
        let pixel = PixelXRGB { colors: [0u8, 0u8, 0u8, 0u8] };
        assert(pixel.bytes() =~= seq![0u8, 0u8, 0u8, 0u8]);
        pixel
    }
}

impl Pixel for PixelXRGB {
    type Data = [u8; 4];

    closed spec fn bytes(&self) -> Seq<u8> {
        self.colors@
    }

    open spec fn bytes_of(data: &[u8; 4]) -> Seq<u8> {
        data@
    }

    open spec fn spec_offset(channel: Channel) -> int {
        match channel {
            Channel::Alpha => 0,
            Channel::Red => 1,
            Channel::Green => 2,
            Channel::Blue => 3,
        }
    }

    proof fn lemma_layout(&self) {
    }

    fn offset(channel: Channel) -> (offset: usize) {
        match channel {
            Channel::Alpha => 0,
            Channel::Red => 1,
            Channel::Green => 2,
            Channel::Blue => 3,
        }
    }

    fn data(&self) -> (data: &[u8; 4]) {
        &self.colors
    }

    fn data_mut(&mut self) -> (data: &mut [u8; 4]) {
        &mut self.colors
    }

    fn get(&self, channel: Channel) -> (byte: u8) {
        self.colors[Self::offset(channel)]
    }

    fn set(&mut self, channel: Channel, byte: u8) {
        self.colors[Self::offset(channel)] = byte;
    }
}

impl<C: ChannelToken> std::ops::Index<C> for PixelXRGB {
    type Output = u8;

    /// The byte of the channel that `token` stands for.
    fn index(&self, token: C) -> (byte: &u8)
        ensures
            *byte == self.bytes()[Self::spec_offset(C::spec_channel())],
    {
        &self.colors[Self::offset(token.channel())]
    }
}

impl<C: ChannelToken> vstd::std_specs::core::IndexSpecImpl<C> for PixelXRGB {
    /// Every token indexes every pixel.
    open spec fn index_req(&self, index: &C) -> bool {
        true
    }
}

impl<C: ChannelToken> std::ops::IndexMut<C> for PixelXRGB {
    /// The byte of the channel that `token` stands for, to be written
    /// through; the other bytes stay.
    fn index_mut(&mut self, token: C) -> (byte: &mut u8)
        ensures
            *byte == old(self).bytes()[Self::spec_offset(C::spec_channel())],
            final(self).bytes() == old(self).bytes().update(
                Self::spec_offset(C::spec_channel()),
                *final(byte),
            ),
    {
        &mut self.colors[Self::offset(token.channel())]
    }
}

/// What is written to a channel of a pixel is what is then read from that
/// channel, and every other channel reads as it did before: in every format,
/// for every channel. `after` is the pixel that storing `byte` as `channel` of
/// `before` leaves.
pub proof fn lemma_channel_round_trip<P: Pixel>(before: P, after: P, channel: Channel, byte: u8)
    requires
        after.bytes() == before.bytes().update(P::spec_offset(channel), byte),
    ensures
        after.bytes()[P::spec_offset(channel)] == byte,
        forall|other: Channel|
            other != channel ==> after.bytes()[#[trigger] P::spec_offset(other)]
                == before.bytes()[P::spec_offset(other)],
{
    before.lemma_layout();
}

} // verus!
