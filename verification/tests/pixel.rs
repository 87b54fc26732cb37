use pixel_buffer::pixel::{
    Alpha, Blue, Channel, ChannelToken, Green, Pixel, PixelBGRX, PixelXRGB, Red,
};

#[test]
fn bgrx_lays_channels_down_as_blue_green_red_alpha() {
    let mut p = PixelBGRX::default();
    p[Red] = 0x72;
    p[Green] = 0x87;
    p[Blue] = 0xfd;
    p[Alpha] = 0xff;
    assert_eq!(*p.data(), [0xfd, 0x87, 0x72, 0xff]);
    assert_eq!(p[Red], 0x72);
    assert_eq!(p.get(Channel::Blue), 0xfd);
}

#[test]
fn xrgb_lays_channels_down_as_alpha_red_green_blue() {
    let mut p = PixelXRGB::default();
    p[Red] = 0x72;
    p[Green] = 0x87;
    p[Blue] = 0xfd;
    p[Alpha] = 0xff;
    assert_eq!(*p.data(), [0xff, 0x72, 0x87, 0xfd]);
}

#[test]
fn the_default_pixel_is_zero_in_every_channel() {
    let b = PixelBGRX::default();
    let x = PixelXRGB::default();
    for c in [Channel::Red, Channel::Green, Channel::Blue, Channel::Alpha] {
        assert_eq!(b.get(c), 0);
        assert_eq!(x.get(c), 0);
    }
    assert_eq!(*b.data(), [0, 0, 0, 0]);
    assert_eq!(*x.data(), [0, 0, 0, 0]);
}

#[test]
fn the_tables_of_the_formats() {
    assert_eq!(PixelBGRX::offset(Channel::Blue), 0);
    assert_eq!(PixelBGRX::offset(Channel::Green), 1);
    assert_eq!(PixelBGRX::offset(Channel::Red), 2);
    assert_eq!(PixelBGRX::offset(Channel::Alpha), 3);
    assert_eq!(PixelXRGB::offset(Channel::Alpha), 0);
    assert_eq!(PixelXRGB::offset(Channel::Red), 1);
    assert_eq!(PixelXRGB::offset(Channel::Green), 2);
    assert_eq!(PixelXRGB::offset(Channel::Blue), 3);
}

#[test]
fn the_tokens_stand_for_their_channels() {
    assert_eq!(Red.channel(), Channel::Red);
    assert_eq!(Green.channel(), Channel::Green);
    assert_eq!(Blue.channel(), Channel::Blue);
    assert_eq!(Alpha.channel(), Channel::Alpha);
}

fn round_trip<P: Pixel<Data = [u8; 4]>>() {
    let channels = [Channel::Red, Channel::Green, Channel::Blue, Channel::Alpha];
    for c in channels {
        for v in [0u8, 1, 0x72, 0x80, 0xff] {
            let mut p = P::default();
            for (i, d) in channels.iter().enumerate() {
                p.set(*d, 10 + i as u8);
            }
            p.set(c, v);
            assert_eq!(p.get(c), v);
            assert_eq!(p.data()[P::offset(c)], v);
            for (i, d) in channels.iter().enumerate() {
                if *d != c {
                    assert_eq!(p.get(*d), 10 + i as u8);
                }
            }
        }
    }
}

#[test]
fn a_channel_reads_what_was_written_to_it_in_every_format() {
    round_trip::<PixelBGRX>();
    round_trip::<PixelXRGB>();
}

#[test]
fn indexing_by_a_token_is_the_channel_of_the_token() {
    let mut b = PixelBGRX::default();
    b[Green] = 5;
    assert_eq!(b.get(Channel::Green), 5);
    b.set(Channel::Alpha, 6);
    assert_eq!(b[Alpha], 6);
    assert_eq!(b[Red], 0);
    let mut x = PixelXRGB::default();
    x[Blue] = 7;
    assert_eq!(x.get(Channel::Blue), 7);
    assert_eq!(*x.data(), [0, 0, 0, 7]);
    x.set(Channel::Red, 8);
    assert_eq!(x[Red], 8);
    assert_eq!(x[Green], 0);
}

#[test]
fn the_bytes_of_a_pixel_are_written_through_its_data() {
    let mut b = PixelBGRX::default();
    *b.data_mut() = [0xfd, 0x87, 0x72, 0xff];
    assert_eq!(b[Blue], 0xfd);
    assert_eq!(b[Green], 0x87);
    assert_eq!(b[Red], 0x72);
    assert_eq!(b[Alpha], 0xff);
    let mut x = PixelXRGB::default();
    x.data_mut()[1] = 0x72;
    assert_eq!(x[Red], 0x72);
    assert_eq!(x[Alpha], 0);
}

#[test]
fn a_pixel_is_copied_by_value() {
    let mut a = PixelBGRX::default();
    a[Red] = 1;
    let b = a;
    a[Red] = 2;
    assert_eq!(b[Red], 1);
    assert_eq!(a.clone()[Red], 2);
}
