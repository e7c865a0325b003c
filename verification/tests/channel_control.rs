use libfmod_ext::channel_control::{Channel, ChannelControl, ChannelControlType, ChannelGroup};
use libfmod_ext::error::Error;
use libfmod_ext::extern_struct_storage::{
    get_or_insert, ExternStruct, ExternStructKind, ExternStructStorage,
};

#[test]
fn channel_narrows_to_a_channel() {
    let control = ChannelControl(0x50, ChannelControlType::Channel);
    assert_eq!(control.into_channel(), Ok(Channel(0x50)));
    assert_eq!(control.into_channel_group(), Err(Error::NotAChannelGroup));
}

#[test]
fn channel_group_narrows_to_a_channel_group() {
    let control = ChannelControl(0x60, ChannelControlType::ChannelGroup);
    assert_eq!(control.into_channel_group(), Ok(ChannelGroup(0x60)));
    assert_eq!(control.into_channel(), Err(Error::NotAChannel));
}

#[test]
fn plain_channel_control_narrows_to_neither() {
    let control = ChannelControl(0x70, ChannelControlType::Control);
    assert_eq!(control.into_channel(), Err(Error::NotAChannel));
    assert_eq!(control.into_channel_group(), Err(Error::NotAChannelGroup));
}

#[test]
fn widening_keeps_the_address_and_sets_the_tag() {
    assert_eq!(
        Channel(0x80).into_channel_control(),
        ChannelControl(0x80, ChannelControlType::Channel)
    );
    assert_eq!(
        ChannelGroup(0x90).into_channel_control(),
        ChannelControl(0x90, ChannelControlType::ChannelGroup)
    );
    assert_eq!(Channel(0x80).into_channel_control().into_channel(), Ok(Channel(0x80)));
    assert_eq!(
        ChannelGroup(0x90).into_channel_control().into_channel_group(),
        Ok(ChannelGroup(0x90))
    );
}

#[test]
fn tag_is_no_part_of_the_registered_object() {
    let expected = ExternStruct { kind: ExternStructKind::ChannelControl, id: 0x100 };
    for tag in
        [ChannelControlType::Control, ChannelControlType::Channel, ChannelControlType::ChannelGroup]
    {
        assert_eq!(ChannelControl(0x100, tag).extern_struct(), expected);
    }
}

#[test]
fn first_wrapping_decides_what_an_address_is() {
    let mut storage: ExternStructStorage<ChannelControl> = ExternStructStorage::new();
    let plain = ChannelControl(0x100, ChannelControlType::Control);
    let channel = Channel(0x100).into_channel_control();
    assert_eq!(get_or_insert(&mut storage, plain.extern_struct(), plain), plain);
    let wrapper = get_or_insert(&mut storage, channel.extern_struct(), channel);
    assert_eq!(wrapper, plain);
    assert_eq!(wrapper.into_channel(), Err(Error::NotAChannel));
}
