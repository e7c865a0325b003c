use libfmod_ext::channel_control::{Channel, ChannelControl, ChannelControlType, ChannelGroup};
use libfmod_ext::error::Error;
use libfmod_ext::{FromRuby, IntoRuby};

fn channel(id: usize) -> ChannelControl {
    ChannelControl(id, ChannelControlType::Channel)
}

fn group(id: usize) -> ChannelControl {
    ChannelControl(id, ChannelControlType::ChannelGroup)
}

#[test]
fn plain_values_pass_as_they_are() {
    assert_eq!(IntoRuby::<u8>::into_ruby(200u8), Ok(200));
    assert_eq!(IntoRuby::<u16>::into_ruby(60000u16), Ok(60000));
    assert_eq!(IntoRuby::<u32>::into_ruby(7u32), Ok(7));
    assert_eq!(IntoRuby::<u64>::into_ruby(u64::MAX), Ok(u64::MAX));
    assert_eq!(IntoRuby::<usize>::into_ruby(9usize), Ok(9));
    assert_eq!(IntoRuby::<i8>::into_ruby(-8i8), Ok(-8));
    assert_eq!(IntoRuby::<i16>::into_ruby(-16i16), Ok(-16));
    assert_eq!(IntoRuby::<i32>::into_ruby(-32i32), Ok(-32));
    assert_eq!(IntoRuby::<i64>::into_ruby(i64::MIN), Ok(i64::MIN));
    assert_eq!(IntoRuby::<isize>::into_ruby(-1isize), Ok(-1));
    assert_eq!(IntoRuby::<bool>::into_ruby(true), Ok(true));
    assert_eq!(IntoRuby::<char>::into_ruby('x'), Ok('x'));
    assert_eq!(IntoRuby::<()>::into_ruby(()), Ok(()));
    assert_eq!(IntoRuby::<String>::into_ruby(String::from("name")), Ok(String::from("name")));
    assert_eq!(FromRuby::<u8>::from_ruby(200u8), Ok(200));
    assert_eq!(FromRuby::<u16>::from_ruby(60000u16), Ok(60000));
    assert_eq!(FromRuby::<u32>::from_ruby(7u32), Ok(7));
    assert_eq!(FromRuby::<u64>::from_ruby(u64::MAX), Ok(u64::MAX));
    assert_eq!(FromRuby::<usize>::from_ruby(9usize), Ok(9));
    assert_eq!(FromRuby::<i8>::from_ruby(-8i8), Ok(-8));
    assert_eq!(FromRuby::<i16>::from_ruby(-16i16), Ok(-16));
    assert_eq!(FromRuby::<i32>::from_ruby(-32i32), Ok(-32));
    assert_eq!(FromRuby::<i64>::from_ruby(i64::MIN), Ok(i64::MIN));
    assert_eq!(FromRuby::<isize>::from_ruby(-1isize), Ok(-1));
    assert_eq!(FromRuby::<bool>::from_ruby(false), Ok(false));
    assert_eq!(FromRuby::<char>::from_ruby('y'), Ok('y'));
    assert_eq!(FromRuby::<()>::from_ruby(()), Ok(()));
    assert_eq!(FromRuby::<String>::from_ruby(String::from("name")), Ok(String::from("name")));
}

#[test]
fn channel_control_converts_by_its_tag() {
    assert_eq!(FromRuby::<Channel>::from_ruby(channel(5)), Ok(Channel(5)));
    assert_eq!(FromRuby::<Channel>::from_ruby(group(5)), Err(Error::NotAChannel));
    assert_eq!(FromRuby::<ChannelGroup>::from_ruby(group(6)), Ok(ChannelGroup(6)));
    assert_eq!(FromRuby::<ChannelGroup>::from_ruby(channel(6)), Err(Error::NotAChannelGroup));
    let plain = ChannelControl(7, ChannelControlType::Control);
    assert_eq!(FromRuby::<Channel>::from_ruby(plain), Err(Error::NotAChannel));
    assert_eq!(FromRuby::<ChannelGroup>::from_ruby(plain), Err(Error::NotAChannelGroup));
}

#[test]
fn option_converts_what_it_holds() {
    assert_eq!(IntoRuby::<Option<u32>>::into_ruby(Some(3u32)), Ok(Some(3)));
    assert_eq!(IntoRuby::<Option<u32>>::into_ruby(None::<u32>), Ok(None));
    assert_eq!(FromRuby::<Option<Channel>>::from_ruby(Some(channel(1))), Ok(Some(Channel(1))));
    assert_eq!(FromRuby::<Option<Channel>>::from_ruby(Some(group(1))), Err(Error::NotAChannel));
    assert_eq!(FromRuby::<Option<Channel>>::from_ruby(None::<ChannelControl>), Ok(None));
}

#[test]
fn vec_converts_item_by_item() {
    assert_eq!(IntoRuby::<Vec<u64>>::into_ruby(vec![1u64, 2, 3]), Ok(vec![1, 2, 3]));
    assert_eq!(IntoRuby::<Vec<u64>>::into_ruby(Vec::<u64>::new()), Ok(vec![]));
    assert_eq!(
        FromRuby::<Vec<Channel>>::from_ruby(vec![channel(1), channel(2)]),
        Ok(vec![Channel(1), Channel(2)])
    );
}

#[test]
fn vec_fails_with_the_error_of_the_first_item_that_fails() {
    let plain = ChannelControl(9, ChannelControlType::Control);
    assert_eq!(
        FromRuby::<Vec<Channel>>::from_ruby(vec![channel(1), group(2), channel(3)]),
        Err(Error::NotAChannel)
    );
    let mixed: Vec<Result<u32, u32>> = vec![Ok(1), Err(40), Ok(3), Err(50)];
    assert_eq!(IntoRuby::<Vec<u32>>::into_ruby(mixed), Err(Error::Fmod(40)));
    assert_eq!(
        FromRuby::<Vec<ChannelGroup>>::from_ruby(vec![plain]),
        Err(Error::NotAChannelGroup)
    );
}

#[test]
fn engine_result_converts_or_becomes_the_error_for_its_code() {
    assert_eq!(IntoRuby::<u32>::into_ruby(Ok::<u32, u32>(5)), Ok(5));
    assert_eq!(IntoRuby::<u32>::into_ruby(Err::<u32, u32>(31)), Err(Error::Fmod(31)));
    assert_eq!(FromRuby::<Channel>::from_ruby(Ok::<ChannelControl, u32>(channel(2))), Ok(Channel(2)));
    assert_eq!(
        FromRuby::<Channel>::from_ruby(Ok::<ChannelControl, u32>(group(2))),
        Err(Error::NotAChannel)
    );
    assert_eq!(
        FromRuby::<Channel>::from_ruby(Err::<ChannelControl, u32>(74)),
        Err(Error::Fmod(74))
    );
}

#[test]
fn borrowed_value_converts_through_a_clone() {
    let control = channel(4);
    assert_eq!(FromRuby::<Channel>::from_ruby(&control), Ok(Channel(4)));
    assert_eq!(FromRuby::<ChannelGroup>::from_ruby(&control), Err(Error::NotAChannelGroup));
    let name = String::from("master");
    assert_eq!(FromRuby::<String>::from_ruby(&name), Ok(String::from("master")));
    assert_eq!(name, "master");
}

#[test]
fn tuples_convert_part_by_part() {
    assert_eq!(IntoRuby::<(u32,)>::into_ruby((1u32,)), Ok((1,)));
    assert_eq!(IntoRuby::<(u64, u64)>::into_ruby((1u64, 2u64)), Ok((1, 2)));
    assert_eq!(IntoRuby::<(u64, u64, bool)>::into_ruby((1u64, 2u64, true)), Ok((1, 2, true)));
    assert_eq!(
        IntoRuby::<(i32, String, u32, bool)>::into_ruby((-1i32, String::from("a"), 3u32, false)),
        Ok((-1, String::from("a"), 3, false))
    );
    assert_eq!(
        IntoRuby::<(u8, u16, u32, u64, usize)>::into_ruby((1u8, 2u16, 3u32, 4u64, 5usize)),
        Ok((1, 2, 3, 4, 5))
    );
    assert_eq!(
        IntoRuby::<(u8, u16, u32, u64, usize, char)>::into_ruby((
            1u8, 2u16, 3u32, 4u64, 5usize, 'z'
        )),
        Ok((1, 2, 3, 4, 5, 'z'))
    );
    assert_eq!(
        FromRuby::<(Channel, ChannelGroup)>::from_ruby((channel(1), group(2))),
        Ok((Channel(1), ChannelGroup(2)))
    );
    assert_eq!(
        FromRuby::<(Channel, u32, bool)>::from_ruby((channel(1), 2u32, true)),
        Ok((Channel(1), 2, true))
    );
}

#[test]
fn tuple_fails_with_the_error_of_the_first_part_that_fails() {
    assert_eq!(
        FromRuby::<(Channel, ChannelGroup)>::from_ruby((group(1), channel(2))),
        Err(Error::NotAChannel)
    );
    assert_eq!(
        FromRuby::<(Channel, ChannelGroup)>::from_ruby((channel(1), channel(2))),
        Err(Error::NotAChannelGroup)
    );
    assert_eq!(
        IntoRuby::<(u32, u32, u32)>::into_ruby((Ok::<u32, u32>(1), Err::<u32, u32>(2), Err::<u32, u32>(3))),
        Err(Error::Fmod(2))
    );
    assert_eq!(FromRuby::<(Channel,)>::from_ruby((group(1),)), Err(Error::NotAChannel));
}

#[test]
fn containers_nest() {
    let nested: Vec<Option<(ChannelControl, u32)>> =
        vec![Some((channel(1), 10)), None, Some((channel(2), 20))];
    assert_eq!(
        FromRuby::<Vec<Option<(Channel, u32)>>>::from_ruby(nested),
        Ok(vec![Some((Channel(1), 10)), None, Some((Channel(2), 20))])
    );
    let failing: Vec<Option<(ChannelControl, u32)>> = vec![Some((channel(1), 10)), Some((group(2), 20))];
    assert_eq!(
        FromRuby::<Vec<Option<(Channel, u32)>>>::from_ruby(failing),
        Err(Error::NotAChannel)
    );
}
