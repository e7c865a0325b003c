//! Conversion between the engine's values and the host's.
//!
//! Every value that crosses the boundary is converted, and every conversion can
//! fail. What a conversion may yield is stated as a relation between the value and the
//! result, so that conversions of containers can be stated over those of their items.
use crate::channel_control::{Channel, ChannelControl, ChannelControlType, ChannelGroup};
use crate::error::{from_fmod, Error};
use vstd::prelude::*;
use vstd::std_specs::iter::IteratorSpec;

verus! {

/// A value of the engine's side that can be handed to the host as a `T`.
pub trait IntoRuby<T>: Sized {
    /// Whether `result` is what the conversion of `self` may yield.
    spec fn into_ruby_spec(self, result: Result<T, Error>) -> bool;

    /// Converts the value for the host.
    fn into_ruby(self) -> (result: Result<T, Error>)
        ensures
            self.into_ruby_spec(result),
    ;
}

/// A value of the host's side that can be handed to the engine as a `T`.
pub trait FromRuby<T>: Sized {
    /// Whether `result` is what the conversion of `self` may yield.
    spec fn from_ruby_spec(self, result: Result<T, Error>) -> bool;

    /// Converts the value for the engine.
    fn from_ruby(self) -> (result: Result<T, Error>)
        ensures
            self.from_ruby_spec(result),
    ;
}

/// Whether the conversion of `item` may succeed.
pub open spec fn can_into_ruby<T: IntoRuby<TWrap>, TWrap>(item: T) -> bool {
    exists|wrapped: TWrap| item.into_ruby_spec(Ok(wrapped))
}

/// Whether the conversion of `item` may succeed.
pub open spec fn can_from_ruby<T: FromRuby<TUnwrap>, TUnwrap>(item: T) -> bool {
    exists|unwrapped: TUnwrap| item.from_ruby_spec(Ok(unwrapped))
}

/// Whether the conversion of each of the items before `end` may succeed.
pub open spec fn all_into_ruby<T: IntoRuby<TWrap>, TWrap>(items: Seq<T>, end: int) -> bool {
    forall|j: int| 0 <= j < end ==> can_into_ruby::<T, TWrap>(#[trigger] items[j])
}

/// Whether the conversion of each of the items before `end` may succeed.
pub open spec fn all_from_ruby<T: FromRuby<TUnwrap>, TUnwrap>(items: Seq<T>, end: int) -> bool {
    forall|j: int| 0 <= j < end ==> can_from_ruby::<T, TUnwrap>(#[trigger] items[j])
}

// The values that both sides have in common are handed over as they are.

impl IntoRuby<u8> for u8 {
    open spec fn into_ruby_spec(self, result: Result<u8, Error>) -> bool {
        result == Ok::<u8, Error>(self)
    }

    fn into_ruby(self) -> (result: Result<u8, Error>) {
        Ok(self)
    }
}

impl FromRuby<u8> for u8 {
    open spec fn from_ruby_spec(self, result: Result<u8, Error>) -> bool {
        result == Ok::<u8, Error>(self)
    }

    fn from_ruby(self) -> (result: Result<u8, Error>) {
        Ok(self)
    }
}

impl IntoRuby<u16> for u16 {
    open spec fn into_ruby_spec(self, result: Result<u16, Error>) -> bool {
        result == Ok::<u16, Error>(self)
    }

    fn into_ruby(self) -> (result: Result<u16, Error>) {
        Ok(self)
    }
}

impl FromRuby<u16> for u16 {
    open spec fn from_ruby_spec(self, result: Result<u16, Error>) -> bool {
        result == Ok::<u16, Error>(self)
    }

    fn from_ruby(self) -> (result: Result<u16, Error>) {
        Ok(self)
    }
}

impl IntoRuby<u32> for u32 {
    open spec fn into_ruby_spec(self, result: Result<u32, Error>) -> bool {
        result == Ok::<u32, Error>(self)
    }

    fn into_ruby(self) -> (result: Result<u32, Error>) {
        Ok(self)
    }
}

impl FromRuby<u32> for u32 {
    open spec fn from_ruby_spec(self, result: Result<u32, Error>) -> bool {
        result == Ok::<u32, Error>(self)
    }

    fn from_ruby(self) -> (result: Result<u32, Error>) {
        Ok(self)
    }
}

impl IntoRuby<u64> for u64 {
    open spec fn into_ruby_spec(self, result: Result<u64, Error>) -> bool {
        result == Ok::<u64, Error>(self)
    }

    fn into_ruby(self) -> (result: Result<u64, Error>) {
        Ok(self)
    }
}

impl FromRuby<u64> for u64 {
    open spec fn from_ruby_spec(self, result: Result<u64, Error>) -> bool {
        result == Ok::<u64, Error>(self)
    }

    fn from_ruby(self) -> (result: Result<u64, Error>) {
        Ok(self)
    }
}

impl IntoRuby<usize> for usize {
    open spec fn into_ruby_spec(self, result: Result<usize, Error>) -> bool {
        result == Ok::<usize, Error>(self)
    }

    fn into_ruby(self) -> (result: Result<usize, Error>) {
        Ok(self)
    }
}

impl FromRuby<usize> for usize {
    open spec fn from_ruby_spec(self, result: Result<usize, Error>) -> bool {
        result == Ok::<usize, Error>(self)
    }

    fn from_ruby(self) -> (result: Result<usize, Error>) {
        Ok(self)
    }
}

impl IntoRuby<i8> for i8 {
    open spec fn into_ruby_spec(self, result: Result<i8, Error>) -> bool {
        result == Ok::<i8, Error>(self)
    }

    fn into_ruby(self) -> (result: Result<i8, Error>) {
        Ok(self)
    }
}

impl FromRuby<i8> for i8 {
    open spec fn from_ruby_spec(self, result: Result<i8, Error>) -> bool {
        result == Ok::<i8, Error>(self)
    }

    fn from_ruby(self) -> (result: Result<i8, Error>) {
        Ok(self)
    }
}

impl IntoRuby<i16> for i16 {
    open spec fn into_ruby_spec(self, result: Result<i16, Error>) -> bool {
        result == Ok::<i16, Error>(self)
    }

    fn into_ruby(self) -> (result: Result<i16, Error>) {
        Ok(self)
    }
}

impl FromRuby<i16> for i16 {
    open spec fn from_ruby_spec(self, result: Result<i16, Error>) -> bool {
        result == Ok::<i16, Error>(self)
    }

    fn from_ruby(self) -> (result: Result<i16, Error>) {
        Ok(self)
    }
}

impl IntoRuby<i32> for i32 {
    open spec fn into_ruby_spec(self, result: Result<i32, Error>) -> bool {
        result == Ok::<i32, Error>(self)
    }

    fn into_ruby(self) -> (result: Result<i32, Error>) {
        Ok(self)
    }
}

impl FromRuby<i32> for i32 {
    open spec fn from_ruby_spec(self, result: Result<i32, Error>) -> bool {
        result == Ok::<i32, Error>(self)
    }

    fn from_ruby(self) -> (result: Result<i32, Error>) {
        Ok(self)
    }
}

impl IntoRuby<i64> for i64 {
    open spec fn into_ruby_spec(self, result: Result<i64, Error>) -> bool {
        result == Ok::<i64, Error>(self)
    }

    fn into_ruby(self) -> (result: Result<i64, Error>) {
        Ok(self)
    }
}

impl FromRuby<i64> for i64 {
    open spec fn from_ruby_spec(self, result: Result<i64, Error>) -> bool {
        result == Ok::<i64, Error>(self)
    }

    fn from_ruby(self) -> (result: Result<i64, Error>) {
        Ok(self)
    }
}

impl IntoRuby<isize> for isize {
    open spec fn into_ruby_spec(self, result: Result<isize, Error>) -> bool {
        result == Ok::<isize, Error>(self)
    }

    fn into_ruby(self) -> (result: Result<isize, Error>) {
        Ok(self)
    }
}

impl FromRuby<isize> for isize {
    open spec fn from_ruby_spec(self, result: Result<isize, Error>) -> bool {
        result == Ok::<isize, Error>(self)
    }

    fn from_ruby(self) -> (result: Result<isize, Error>) {
        Ok(self)
    }
}

impl IntoRuby<bool> for bool {
    open spec fn into_ruby_spec(self, result: Result<bool, Error>) -> bool {
        result == Ok::<bool, Error>(self)
    }

    fn into_ruby(self) -> (result: Result<bool, Error>) {
        Ok(self)
    }
}

impl FromRuby<bool> for bool {
    open spec fn from_ruby_spec(self, result: Result<bool, Error>) -> bool {
        result == Ok::<bool, Error>(self)
    }

    fn from_ruby(self) -> (result: Result<bool, Error>) {
        Ok(self)
    }
}

impl IntoRuby<String> for String {
    open spec fn into_ruby_spec(self, result: Result<String, Error>) -> bool {
        result == Ok::<String, Error>(self)
    }

    fn into_ruby(self) -> (result: Result<String, Error>) {
        Ok(self)
    }
}

impl FromRuby<String> for String {
    open spec fn from_ruby_spec(self, result: Result<String, Error>) -> bool {
        result == Ok::<String, Error>(self)
    }

    fn from_ruby(self) -> (result: Result<String, Error>) {
        Ok(self)
    }
}

impl IntoRuby<char> for char {
    open spec fn into_ruby_spec(self, result: Result<char, Error>) -> bool {
        result == Ok::<char, Error>(self)
    }

    fn into_ruby(self) -> (result: Result<char, Error>) {
        Ok(self)
    }
}

impl FromRuby<char> for char {
    open spec fn from_ruby_spec(self, result: Result<char, Error>) -> bool {
        result == Ok::<char, Error>(self)
    }

    fn from_ruby(self) -> (result: Result<char, Error>) {
        Ok(self)
    }
}

impl IntoRuby<()> for () {
    open spec fn into_ruby_spec(self, result: Result<(), Error>) -> bool {
        result == Ok::<(), Error>(self)
    }

    fn into_ruby(self) -> (result: Result<(), Error>) {
        Ok(self)
    }
}

impl FromRuby<()> for () {
    open spec fn from_ruby_spec(self, result: Result<(), Error>) -> bool {
        result == Ok::<(), Error>(self)
    }

    fn from_ruby(self) -> (result: Result<(), Error>) {
        Ok(self)
    }
}

/// Nothing stays nothing; something is converted.
impl<T: IntoRuby<TWrap>, TWrap> IntoRuby<Option<TWrap>> for Option<T> {
    open spec fn into_ruby_spec(self, result: Result<Option<TWrap>, Error>) -> bool {
        match self {
            None => result == Ok::<Option<TWrap>, Error>(None),
            Some(item) => match result {
                Ok(Some(wrapped)) => item.into_ruby_spec(Ok(wrapped)),
                Ok(None) => false,
                Err(error) => item.into_ruby_spec(Err(error)),
            },
        }
    }

    fn into_ruby(self) -> (result: Result<Option<TWrap>, Error>) {
        match self {
            None => Ok(None),
            Some(item) => match item.into_ruby() {
                Ok(wrapped) => Ok(Some(wrapped)),
                Err(error) => Err(error),
            },
        }
    }
}

/// Item by item, in order: the conversions of all items, or the error of the first
/// item that cannot be converted.
impl<T: IntoRuby<TWrap>, TWrap> IntoRuby<Vec<TWrap>> for Vec<T> {
    open spec fn into_ruby_spec(self, result: Result<Vec<TWrap>, Error>) -> bool {
        match result {
            Ok(wrapped) => {
                &&& wrapped@.len() == self@.len()
                &&& forall|i: int|
                    0 <= i < self@.len() ==> (#[trigger] self@[i]).into_ruby_spec(Ok(wrapped@[i]))
            },
            Err(error) => exists|i: int|
                {
                    &&& 0 <= i < self@.len()
                    &&& (#[trigger] self@[i]).into_ruby_spec(Err(error))
                    &&& all_into_ruby::<T, TWrap>(self@, i)
                },
        }
    }

    fn into_ruby(self) -> (result: Result<Vec<TWrap>, Error>) {
        let ghost items = self@;
        let mut wrapped: Vec<TWrap> = Vec::new();
        for item in it: self.into_iter()
            invariant
                it.seq() == items,
                wrapped@.len() == it.index(),
                forall|i: int|
                    0 <= i < wrapped@.len() ==> (#[trigger] items[i]).into_ruby_spec(
                        Ok(wrapped@[i]),
                    ),
        {
            match item.into_ruby() {
                Ok(converted) => wrapped.push(converted),
                Err(error) => {
                    proof {
                        let i = wrapped@.len() as int;
                        assert(items[i].into_ruby_spec(Err(error)));
                        assert forall|j: int| 0 <= j < i implies can_into_ruby::<T, TWrap>(
                            #[trigger] items[j],
                        ) by {
                            assert(items[j].into_ruby_spec(Ok(wrapped@[j])));
                        }
                        assert(all_into_ruby::<T, TWrap>(items, i));
                    }
                    return Err(error);
                },
            }
        }
        Ok(wrapped)
    }
}

/// What the engine returned is converted; what it refused with becomes the error for
/// that result code.
impl<T: IntoRuby<TWrap>, TWrap> IntoRuby<TWrap> for Result<T, u32> {
    open spec fn into_ruby_spec(self, result: Result<TWrap, Error>) -> bool {
        match self {
            Ok(item) => item.into_ruby_spec(result),
            Err(code) => result == Err::<TWrap, Error>(Error::Fmod(code)),
        }
    }

    fn into_ruby(self) -> (result: Result<TWrap, Error>) {
        match self {
            Ok(item) => item.into_ruby(),
            Err(code) => Err(from_fmod(code)),
        }
    }
}

/// Nothing stays nothing; something is converted.
impl<T: FromRuby<TUnwrap>, TUnwrap> FromRuby<Option<TUnwrap>> for Option<T> {
    open spec fn from_ruby_spec(self, result: Result<Option<TUnwrap>, Error>) -> bool {
        match self {
            None => result == Ok::<Option<TUnwrap>, Error>(None),
            Some(item) => match result {
                Ok(Some(unwrapped)) => item.from_ruby_spec(Ok(unwrapped)),
                Ok(None) => false,
                Err(error) => item.from_ruby_spec(Err(error)),
            },
        }
    }

    fn from_ruby(self) -> (result: Result<Option<TUnwrap>, Error>) {
        match self {
            None => Ok(None),
            Some(item) => match item.from_ruby() {
                Ok(unwrapped) => Ok(Some(unwrapped)),
                Err(error) => Err(error),
            },
        }
    }
}

/// Item by item, in order: the conversions of all items, or the error of the first
/// item that cannot be converted.
impl<T: FromRuby<TUnwrap>, TUnwrap> FromRuby<Vec<TUnwrap>> for Vec<T> {
    open spec fn from_ruby_spec(self, result: Result<Vec<TUnwrap>, Error>) -> bool {
        match result {
            Ok(unwrapped) => {
                &&& unwrapped@.len() == self@.len()
                &&& forall|i: int|
                    0 <= i < self@.len() ==> (#[trigger] self@[i]).from_ruby_spec(Ok(unwrapped@[i]))
            },
            Err(error) => exists|i: int|
                {
                    &&& 0 <= i < self@.len()
                    &&& (#[trigger] self@[i]).from_ruby_spec(Err(error))
                    &&& all_from_ruby::<T, TUnwrap>(self@, i)
                },
        }
    }

    fn from_ruby(self) -> (result: Result<Vec<TUnwrap>, Error>) {
        let ghost items = self@;
        let mut unwrapped: Vec<TUnwrap> = Vec::new();
        for item in it: self.into_iter()
            invariant
                it.seq() == items,
                unwrapped@.len() == it.index(),
                forall|i: int|
                    0 <= i < unwrapped@.len() ==> (#[trigger] items[i]).from_ruby_spec(
                        Ok(unwrapped@[i]),
                    ),
        {
            match item.from_ruby() {
                Ok(converted) => unwrapped.push(converted),
                Err(error) => {
                    proof {
                        let i = unwrapped@.len() as int;
                        assert(items[i].from_ruby_spec(Err(error)));
                        assert forall|j: int| 0 <= j < i implies can_from_ruby::<T, TUnwrap>(
                            #[trigger] items[j],
                        ) by {
                            assert(items[j].from_ruby_spec(Ok(unwrapped@[j])));
                        }
                        assert(all_from_ruby::<T, TUnwrap>(items, i));
                    }
                    return Err(error);
                },
            }
        }
        Ok(unwrapped)
    }
}

/// What the engine returned is converted; what it refused with becomes the error for
/// that result code.
impl<T: FromRuby<TUnwrap>, TUnwrap> FromRuby<TUnwrap> for Result<T, u32> {
    open spec fn from_ruby_spec(self, result: Result<TUnwrap, Error>) -> bool {
        match self {
            Ok(item) => item.from_ruby_spec(result),
            Err(code) => result == Err::<TUnwrap, Error>(Error::Fmod(code)),
        }
    }

    fn from_ruby(self) -> (result: Result<TUnwrap, Error>) {
        match self {
            Ok(item) => item.from_ruby(),
            Err(code) => Err(from_fmod(code)),
        }
    }
}

/// A borrowed value is converted through a clone of it.
impl<T: Clone + FromRuby<TUnwrap>, TUnwrap> FromRuby<TUnwrap> for &T {
    open spec fn from_ruby_spec(self, result: Result<TUnwrap, Error>) -> bool {
        exists|owned: T| cloned::<T>(*self, owned) && #[trigger] owned.from_ruby_spec(result)
    }

    fn from_ruby(self) -> (result: Result<TUnwrap, Error>) {
        let owned = self.clone();
        let result = owned.from_ruby();
        assert(cloned::<T>(*self, owned) && owned.from_ruby_spec(result));
        result
    }
}

/// A channel control is handed to the engine as a channel only if it is one.
impl FromRuby<Channel> for ChannelControl {
    open spec fn from_ruby_spec(self, result: Result<Channel, Error>) -> bool {
        result == if self.1 == ChannelControlType::Channel {
            Ok::<Channel, Error>(Channel(self.0))
        } else {
            Err::<Channel, Error>(Error::NotAChannel)
        }
    }

    fn from_ruby(self) -> (result: Result<Channel, Error>) {
        self.into_channel()
    }
}

/// A channel control is handed to the engine as a channel group only if it is one.
impl FromRuby<ChannelGroup> for ChannelControl {
    open spec fn from_ruby_spec(self, result: Result<ChannelGroup, Error>) -> bool {
        result == if self.1 == ChannelControlType::ChannelGroup {
            Ok::<ChannelGroup, Error>(ChannelGroup(self.0))
        } else {
            Err::<ChannelGroup, Error>(Error::NotAChannelGroup)
        }
    }

    fn from_ruby(self) -> (result: Result<ChannelGroup, Error>) {
        self.into_channel_group()
    }
}

// Tuples are converted part by part, in order: the conversions of all parts, or the
// error of the first part that cannot be converted.

impl<T0: IntoRuby<T0Wrap>, T0Wrap> IntoRuby<(T0Wrap,)> for (T0,) {
    open spec fn into_ruby_spec(self, result: Result<(T0Wrap,), Error>) -> bool {
        match result {
            Ok(converted) => {
                &&& self.0.into_ruby_spec(Ok(converted.0))
            },
            Err(error) => {
                ||| self.0.into_ruby_spec(Err(error))
            },
        }
    }

    fn into_ruby(self) -> (result: Result<(T0Wrap,), Error>) {
        let c0 = match self.0.into_ruby() {
            Ok(converted) => converted,
            Err(error) => {
                return Err(error);
            },
        };
        assert(can_into_ruby::<T0, T0Wrap>(self.0)) by {
            assert(self.0.into_ruby_spec(Ok(c0)));
        }
        Ok((c0,))
    }
}

impl<
    T0: IntoRuby<T0Wrap>,
    T0Wrap,
    T1: IntoRuby<T1Wrap>,
    T1Wrap,
> IntoRuby<(T0Wrap, T1Wrap)> for (T0, T1) {
    open spec fn into_ruby_spec(self, result: Result<(T0Wrap, T1Wrap), Error>) -> bool {
        match result {
            Ok(converted) => {
                &&& self.0.into_ruby_spec(Ok(converted.0))
                &&& self.1.into_ruby_spec(Ok(converted.1))
            },
            Err(error) => {
                ||| self.0.into_ruby_spec(Err(error))
                ||| {
                    &&& can_into_ruby::<T0, T0Wrap>(self.0)
                    &&& self.1.into_ruby_spec(Err(error))
                }
            },
        }
    }

    fn into_ruby(self) -> (result: Result<(T0Wrap, T1Wrap), Error>) {
        let c0 = match self.0.into_ruby() {
            Ok(converted) => converted,
            Err(error) => {
                return Err(error);
            },
        };
        assert(can_into_ruby::<T0, T0Wrap>(self.0)) by {
            assert(self.0.into_ruby_spec(Ok(c0)));
        }
        let c1 = match self.1.into_ruby() {
            Ok(converted) => converted,
            Err(error) => {
                return Err(error);
            },
        };
        assert(can_into_ruby::<T1, T1Wrap>(self.1)) by {
            assert(self.1.into_ruby_spec(Ok(c1)));
        }
        Ok((c0, c1))
    }
}

impl<
    T0: IntoRuby<T0Wrap>,
    T0Wrap,
    T1: IntoRuby<T1Wrap>,
    T1Wrap,
    T2: IntoRuby<T2Wrap>,
    T2Wrap,
> IntoRuby<(T0Wrap, T1Wrap, T2Wrap)> for (T0, T1, T2) {
    open spec fn into_ruby_spec(self, result: Result<(T0Wrap, T1Wrap, T2Wrap), Error>) -> bool {
        match result {
            Ok(converted) => {
                &&& self.0.into_ruby_spec(Ok(converted.0))
                &&& self.1.into_ruby_spec(Ok(converted.1))
                &&& self.2.into_ruby_spec(Ok(converted.2))
            },
            Err(error) => {
                ||| self.0.into_ruby_spec(Err(error))
                ||| {
                    &&& can_into_ruby::<T0, T0Wrap>(self.0)
                    &&& self.1.into_ruby_spec(Err(error))
                }
                ||| {
                    &&& can_into_ruby::<T0, T0Wrap>(self.0)
                    &&& can_into_ruby::<T1, T1Wrap>(self.1)
                    &&& self.2.into_ruby_spec(Err(error))
                }
            },
        }
    }

    fn into_ruby(self) -> (result: Result<(T0Wrap, T1Wrap, T2Wrap), Error>) {
        let c0 = match self.0.into_ruby() {
            Ok(converted) => converted,
            Err(error) => {
                return Err(error);
            },
        };
        assert(can_into_ruby::<T0, T0Wrap>(self.0)) by {
            assert(self.0.into_ruby_spec(Ok(c0)));
        }
        let c1 = match self.1.into_ruby() {
            Ok(converted) => converted,
            Err(error) => {
                return Err(error);
            },
        };
        assert(can_into_ruby::<T1, T1Wrap>(self.1)) by {
            assert(self.1.into_ruby_spec(Ok(c1)));
        }
        let c2 = match self.2.into_ruby() {
            Ok(converted) => converted,
            Err(error) => {
                return Err(error);
            },
        };
        assert(can_into_ruby::<T2, T2Wrap>(self.2)) by {
            assert(self.2.into_ruby_spec(Ok(c2)));
        }
        Ok((c0, c1, c2))
    }
}

impl<
    T0: IntoRuby<T0Wrap>,
    T0Wrap,
    T1: IntoRuby<T1Wrap>,
    T1Wrap,
    T2: IntoRuby<T2Wrap>,
    T2Wrap,
    T3: IntoRuby<T3Wrap>,
    T3Wrap,
> IntoRuby<(T0Wrap, T1Wrap, T2Wrap, T3Wrap)> for (T0, T1, T2, T3) {
    open spec fn into_ruby_spec(
        self,
        result: Result<(T0Wrap, T1Wrap, T2Wrap, T3Wrap), Error>,
    ) -> bool {
        match result {
            Ok(converted) => {
                &&& self.0.into_ruby_spec(Ok(converted.0))
                &&& self.1.into_ruby_spec(Ok(converted.1))
                &&& self.2.into_ruby_spec(Ok(converted.2))
                &&& self.3.into_ruby_spec(Ok(converted.3))
            },
            Err(error) => {
                ||| self.0.into_ruby_spec(Err(error))
                ||| {
                    &&& can_into_ruby::<T0, T0Wrap>(self.0)
                    &&& self.1.into_ruby_spec(Err(error))
                }
                ||| {
                    &&& can_into_ruby::<T0, T0Wrap>(self.0)
                    &&& can_into_ruby::<T1, T1Wrap>(self.1)
                    &&& self.2.into_ruby_spec(Err(error))
                }
                ||| {
                    &&& can_into_ruby::<T0, T0Wrap>(self.0)
                    &&& can_into_ruby::<T1, T1Wrap>(self.1)
                    &&& can_into_ruby::<T2, T2Wrap>(self.2)
                    &&& self.3.into_ruby_spec(Err(error))
                }
            },
        }
    }

    fn into_ruby(self) -> (result: Result<(T0Wrap, T1Wrap, T2Wrap, T3Wrap), Error>) {
        let c0 = match self.0.into_ruby() {
            Ok(converted) => converted,
            Err(error) => {
                return Err(error);
            },
        };
        assert(can_into_ruby::<T0, T0Wrap>(self.0)) by {
            assert(self.0.into_ruby_spec(Ok(c0)));
        }
        let c1 = match self.1.into_ruby() {
            Ok(converted) => converted,
            Err(error) => {
                return Err(error);
            },
        };
        assert(can_into_ruby::<T1, T1Wrap>(self.1)) by {
            assert(self.1.into_ruby_spec(Ok(c1)));
        }
        let c2 = match self.2.into_ruby() {
            Ok(converted) => converted,
            Err(error) => {
                return Err(error);
            },
        };
        assert(can_into_ruby::<T2, T2Wrap>(self.2)) by {
            assert(self.2.into_ruby_spec(Ok(c2)));
        }
        let c3 = match self.3.into_ruby() {
            Ok(converted) => converted,
            Err(error) => {
                return Err(error);
            },
        };
        assert(can_into_ruby::<T3, T3Wrap>(self.3)) by {
            assert(self.3.into_ruby_spec(Ok(c3)));
        }
        Ok((c0, c1, c2, c3))
    }
}

impl<
    T0: IntoRuby<T0Wrap>,
    T0Wrap,
    T1: IntoRuby<T1Wrap>,
    T1Wrap,
    T2: IntoRuby<T2Wrap>,
    T2Wrap,
    T3: IntoRuby<T3Wrap>,
    T3Wrap,
    T4: IntoRuby<T4Wrap>,
    T4Wrap,
> IntoRuby<(T0Wrap, T1Wrap, T2Wrap, T3Wrap, T4Wrap)> for (T0, T1, T2, T3, T4) {
    open spec fn into_ruby_spec(
        self,
        result: Result<(T0Wrap, T1Wrap, T2Wrap, T3Wrap, T4Wrap), Error>,
    ) -> bool {
        match result {
            Ok(converted) => {
                &&& self.0.into_ruby_spec(Ok(converted.0))
                &&& self.1.into_ruby_spec(Ok(converted.1))
                &&& self.2.into_ruby_spec(Ok(converted.2))
                &&& self.3.into_ruby_spec(Ok(converted.3))
                &&& self.4.into_ruby_spec(Ok(converted.4))
            },
            Err(error) => {
                ||| self.0.into_ruby_spec(Err(error))
                ||| {
                    &&& can_into_ruby::<T0, T0Wrap>(self.0)
                    &&& self.1.into_ruby_spec(Err(error))
                }
                ||| {
                    &&& can_into_ruby::<T0, T0Wrap>(self.0)
                    &&& can_into_ruby::<T1, T1Wrap>(self.1)
                    &&& self.2.into_ruby_spec(Err(error))
                }
                ||| {
                    &&& can_into_ruby::<T0, T0Wrap>(self.0)
                    &&& can_into_ruby::<T1, T1Wrap>(self.1)
                    &&& can_into_ruby::<T2, T2Wrap>(self.2)
                    &&& self.3.into_ruby_spec(Err(error))
                }
                ||| {
                    &&& can_into_ruby::<T0, T0Wrap>(self.0)
                    &&& can_into_ruby::<T1, T1Wrap>(self.1)
                    &&& can_into_ruby::<T2, T2Wrap>(self.2)
                    &&& can_into_ruby::<T3, T3Wrap>(self.3)
                    &&& self.4.into_ruby_spec(Err(error))
                }
            },
        }
    }

    fn into_ruby(self) -> (result: Result<(T0Wrap, T1Wrap, T2Wrap, T3Wrap, T4Wrap), Error>) {
        let c0 = match self.0.into_ruby() {
            Ok(converted) => converted,
            Err(error) => {
                return Err(error);
            },
        };
        assert(can_into_ruby::<T0, T0Wrap>(self.0)) by {
            assert(self.0.into_ruby_spec(Ok(c0)));
        }
        let c1 = match self.1.into_ruby() {
            Ok(converted) => converted,
            Err(error) => {
                return Err(error);
            },
        };
        assert(can_into_ruby::<T1, T1Wrap>(self.1)) by {
            assert(self.1.into_ruby_spec(Ok(c1)));
        }
        let c2 = match self.2.into_ruby() {
            Ok(converted) => converted,
            Err(error) => {
                return Err(error);
            },
        };
        assert(can_into_ruby::<T2, T2Wrap>(self.2)) by {
            assert(self.2.into_ruby_spec(Ok(c2)));
        }
        let c3 = match self.3.into_ruby() {
            Ok(converted) => converted,
            Err(error) => {
                return Err(error);
            },
        };
        assert(can_into_ruby::<T3, T3Wrap>(self.3)) by {
            assert(self.3.into_ruby_spec(Ok(c3)));
        }
        let c4 = match self.4.into_ruby() {
            Ok(converted) => converted,
            Err(error) => {
                return Err(error);
            },
        };
        assert(can_into_ruby::<T4, T4Wrap>(self.4)) by {
            assert(self.4.into_ruby_spec(Ok(c4)));
        }
        Ok((c0, c1, c2, c3, c4))
    }
}

impl<
    T0: IntoRuby<T0Wrap>,
    T0Wrap,
    T1: IntoRuby<T1Wrap>,
    T1Wrap,
    T2: IntoRuby<T2Wrap>,
    T2Wrap,
    T3: IntoRuby<T3Wrap>,
    T3Wrap,
    T4: IntoRuby<T4Wrap>,
    T4Wrap,
    T5: IntoRuby<T5Wrap>,
    T5Wrap,
> IntoRuby<(T0Wrap, T1Wrap, T2Wrap, T3Wrap, T4Wrap, T5Wrap)> for (T0, T1, T2, T3, T4, T5) {
    open spec fn into_ruby_spec(
        self,
        result: Result<(T0Wrap, T1Wrap, T2Wrap, T3Wrap, T4Wrap, T5Wrap), Error>,
    ) -> bool {
        match result {
            Ok(converted) => {
                &&& self.0.into_ruby_spec(Ok(converted.0))
                &&& self.1.into_ruby_spec(Ok(converted.1))
                &&& self.2.into_ruby_spec(Ok(converted.2))
                &&& self.3.into_ruby_spec(Ok(converted.3))
                &&& self.4.into_ruby_spec(Ok(converted.4))
                &&& self.5.into_ruby_spec(Ok(converted.5))
            },
            Err(error) => {
                ||| self.0.into_ruby_spec(Err(error))
                ||| {
                    &&& can_into_ruby::<T0, T0Wrap>(self.0)
                    &&& self.1.into_ruby_spec(Err(error))
                }
                ||| {
                    &&& can_into_ruby::<T0, T0Wrap>(self.0)
                    &&& can_into_ruby::<T1, T1Wrap>(self.1)
                    &&& self.2.into_ruby_spec(Err(error))
                }
                ||| {
                    &&& can_into_ruby::<T0, T0Wrap>(self.0)
                    &&& can_into_ruby::<T1, T1Wrap>(self.1)
                    &&& can_into_ruby::<T2, T2Wrap>(self.2)
                    &&& self.3.into_ruby_spec(Err(error))
                }
                ||| {
                    &&& can_into_ruby::<T0, T0Wrap>(self.0)
                    &&& can_into_ruby::<T1, T1Wrap>(self.1)
                    &&& can_into_ruby::<T2, T2Wrap>(self.2)
                    &&& can_into_ruby::<T3, T3Wrap>(self.3)
                    &&& self.4.into_ruby_spec(Err(error))
                }
                ||| {
                    &&& can_into_ruby::<T0, T0Wrap>(self.0)
                    &&& can_into_ruby::<T1, T1Wrap>(self.1)
                    &&& can_into_ruby::<T2, T2Wrap>(self.2)
                    &&& can_into_ruby::<T3, T3Wrap>(self.3)
                    &&& can_into_ruby::<T4, T4Wrap>(self.4)
                    &&& self.5.into_ruby_spec(Err(error))
                }
            },
        }
    }

    fn into_ruby(self) -> (result: Result<
        (T0Wrap, T1Wrap, T2Wrap, T3Wrap, T4Wrap, T5Wrap),
        Error,
    >) {
        let c0 = match self.0.into_ruby() {
            Ok(converted) => converted,
            Err(error) => {
                return Err(error);
            },
        };
        assert(can_into_ruby::<T0, T0Wrap>(self.0)) by {
            assert(self.0.into_ruby_spec(Ok(c0)));
        }
        let c1 = match self.1.into_ruby() {
            Ok(converted) => converted,
            Err(error) => {
                return Err(error);
            },
        };
        assert(can_into_ruby::<T1, T1Wrap>(self.1)) by {
            assert(self.1.into_ruby_spec(Ok(c1)));
        }
        let c2 = match self.2.into_ruby() {
            Ok(converted) => converted,
            Err(error) => {
                return Err(error);
            },
        };
        assert(can_into_ruby::<T2, T2Wrap>(self.2)) by {
            assert(self.2.into_ruby_spec(Ok(c2)));
        }
        let c3 = match self.3.into_ruby() {
            Ok(converted) => converted,
            Err(error) => {
                return Err(error);
            },
        };
        assert(can_into_ruby::<T3, T3Wrap>(self.3)) by {
            assert(self.3.into_ruby_spec(Ok(c3)));
        }
        let c4 = match self.4.into_ruby() {
            Ok(converted) => converted,
            Err(error) => {
                return Err(error);
            },
        };
        assert(can_into_ruby::<T4, T4Wrap>(self.4)) by {
            assert(self.4.into_ruby_spec(Ok(c4)));
        }
        let c5 = match self.5.into_ruby() {
            Ok(converted) => converted,
            Err(error) => {
                return Err(error);
            },
        };
        assert(can_into_ruby::<T5, T5Wrap>(self.5)) by {
            assert(self.5.into_ruby_spec(Ok(c5)));
        }
        Ok((c0, c1, c2, c3, c4, c5))
    }
}

impl<T0: FromRuby<T0Unwrap>, T0Unwrap> FromRuby<(T0Unwrap,)> for (T0,) {
    open spec fn from_ruby_spec(self, result: Result<(T0Unwrap,), Error>) -> bool {
        match result {
            Ok(converted) => {
                &&& self.0.from_ruby_spec(Ok(converted.0))
            },
            Err(error) => {
                ||| self.0.from_ruby_spec(Err(error))
            },
        }
    }

    fn from_ruby(self) -> (result: Result<(T0Unwrap,), Error>) {
        let c0 = match self.0.from_ruby() {
            Ok(converted) => converted,
            Err(error) => {
                return Err(error);
            },
        };
        assert(can_from_ruby::<T0, T0Unwrap>(self.0)) by {
            assert(self.0.from_ruby_spec(Ok(c0)));
        }
        Ok((c0,))
    }
}

impl<
    T0: FromRuby<T0Unwrap>,
    T0Unwrap,
    T1: FromRuby<T1Unwrap>,
    T1Unwrap,
> FromRuby<(T0Unwrap, T1Unwrap)> for (T0, T1) {
    open spec fn from_ruby_spec(self, result: Result<(T0Unwrap, T1Unwrap), Error>) -> bool {
        match result {
            Ok(converted) => {
                &&& self.0.from_ruby_spec(Ok(converted.0))
                &&& self.1.from_ruby_spec(Ok(converted.1))
            },
            Err(error) => {
                ||| self.0.from_ruby_spec(Err(error))
                ||| {
                    &&& can_from_ruby::<T0, T0Unwrap>(self.0)
                    &&& self.1.from_ruby_spec(Err(error))
                }
            },
        }
    }

    fn from_ruby(self) -> (result: Result<(T0Unwrap, T1Unwrap), Error>) {
        let c0 = match self.0.from_ruby() {
            Ok(converted) => converted,
            Err(error) => {
                return Err(error);
            },
        };
        assert(can_from_ruby::<T0, T0Unwrap>(self.0)) by {
            assert(self.0.from_ruby_spec(Ok(c0)));
        }
        let c1 = match self.1.from_ruby() {
            Ok(converted) => converted,
            Err(error) => {
                return Err(error);
            },
        };
        assert(can_from_ruby::<T1, T1Unwrap>(self.1)) by {
            assert(self.1.from_ruby_spec(Ok(c1)));
        }
        Ok((c0, c1))
    }
}

impl<
    T0: FromRuby<T0Unwrap>,
    T0Unwrap,
    T1: FromRuby<T1Unwrap>,
    T1Unwrap,
    T2: FromRuby<T2Unwrap>,
    T2Unwrap,
> FromRuby<(T0Unwrap, T1Unwrap, T2Unwrap)> for (T0, T1, T2) {
    open spec fn from_ruby_spec(
        self,
        result: Result<(T0Unwrap, T1Unwrap, T2Unwrap), Error>,
    ) -> bool {
        match result {
            Ok(converted) => {
                &&& self.0.from_ruby_spec(Ok(converted.0))
                &&& self.1.from_ruby_spec(Ok(converted.1))
                &&& self.2.from_ruby_spec(Ok(converted.2))
            },
            Err(error) => {
                ||| self.0.from_ruby_spec(Err(error))
                ||| {
                    &&& can_from_ruby::<T0, T0Unwrap>(self.0)
                    &&& self.1.from_ruby_spec(Err(error))
                }
                ||| {
                    &&& can_from_ruby::<T0, T0Unwrap>(self.0)
                    &&& can_from_ruby::<T1, T1Unwrap>(self.1)
                    &&& self.2.from_ruby_spec(Err(error))
                }
            },
        }
    }

    fn from_ruby(self) -> (result: Result<(T0Unwrap, T1Unwrap, T2Unwrap), Error>) {
        let c0 = match self.0.from_ruby() {
            Ok(converted) => converted,
            Err(error) => {
                return Err(error);
            },
        };
        assert(can_from_ruby::<T0, T0Unwrap>(self.0)) by {
            assert(self.0.from_ruby_spec(Ok(c0)));
        }
        let c1 = match self.1.from_ruby() {
            Ok(converted) => converted,
            Err(error) => {
                return Err(error);
            },
        };
        assert(can_from_ruby::<T1, T1Unwrap>(self.1)) by {
            assert(self.1.from_ruby_spec(Ok(c1)));
        }
        let c2 = match self.2.from_ruby() {
            Ok(converted) => converted,
            Err(error) => {
                return Err(error);
            },
        };
        assert(can_from_ruby::<T2, T2Unwrap>(self.2)) by {
            assert(self.2.from_ruby_spec(Ok(c2)));
        }
        Ok((c0, c1, c2))
    }
}

impl<
    T0: FromRuby<T0Unwrap>,
    T0Unwrap,
    T1: FromRuby<T1Unwrap>,
    T1Unwrap,
    T2: FromRuby<T2Unwrap>,
    T2Unwrap,
    T3: FromRuby<T3Unwrap>,
    T3Unwrap,
> FromRuby<(T0Unwrap, T1Unwrap, T2Unwrap, T3Unwrap)> for (T0, T1, T2, T3) {
    open spec fn from_ruby_spec(
        self,
        result: Result<(T0Unwrap, T1Unwrap, T2Unwrap, T3Unwrap), Error>,
    ) -> bool {
        match result {
            Ok(converted) => {
                &&& self.0.from_ruby_spec(Ok(converted.0))
                &&& self.1.from_ruby_spec(Ok(converted.1))
                &&& self.2.from_ruby_spec(Ok(converted.2))
                &&& self.3.from_ruby_spec(Ok(converted.3))
            },
            Err(error) => {
                ||| self.0.from_ruby_spec(Err(error))
                ||| {
                    &&& can_from_ruby::<T0, T0Unwrap>(self.0)
                    &&& self.1.from_ruby_spec(Err(error))
                }
                ||| {
                    &&& can_from_ruby::<T0, T0Unwrap>(self.0)
                    &&& can_from_ruby::<T1, T1Unwrap>(self.1)
                    &&& self.2.from_ruby_spec(Err(error))
                }
                ||| {
                    &&& can_from_ruby::<T0, T0Unwrap>(self.0)
                    &&& can_from_ruby::<T1, T1Unwrap>(self.1)
                    &&& can_from_ruby::<T2, T2Unwrap>(self.2)
                    &&& self.3.from_ruby_spec(Err(error))
                }
            },
        }
    }

    fn from_ruby(self) -> (result: Result<(T0Unwrap, T1Unwrap, T2Unwrap, T3Unwrap), Error>) {
        let c0 = match self.0.from_ruby() {
            Ok(converted) => converted,
            Err(error) => {
                return Err(error);
            },
        };
        assert(can_from_ruby::<T0, T0Unwrap>(self.0)) by {
            assert(self.0.from_ruby_spec(Ok(c0)));
        }
        let c1 = match self.1.from_ruby() {
            Ok(converted) => converted,
            Err(error) => {
                return Err(error);
            },
        };
        assert(can_from_ruby::<T1, T1Unwrap>(self.1)) by {
            assert(self.1.from_ruby_spec(Ok(c1)));
        }
        let c2 = match self.2.from_ruby() {
            Ok(converted) => converted,
            Err(error) => {
                return Err(error);
            },
        };
        assert(can_from_ruby::<T2, T2Unwrap>(self.2)) by {
            assert(self.2.from_ruby_spec(Ok(c2)));
        }
        let c3 = match self.3.from_ruby() {
            Ok(converted) => converted,
            Err(error) => {
                return Err(error);
            },
        };
        assert(can_from_ruby::<T3, T3Unwrap>(self.3)) by {
            assert(self.3.from_ruby_spec(Ok(c3)));
        }
        Ok((c0, c1, c2, c3))
    }
}

impl<
    T0: FromRuby<T0Unwrap>,
    T0Unwrap,
    T1: FromRuby<T1Unwrap>,
    T1Unwrap,
    T2: FromRuby<T2Unwrap>,
    T2Unwrap,
    T3: FromRuby<T3Unwrap>,
    T3Unwrap,
    T4: FromRuby<T4Unwrap>,
    T4Unwrap,
> FromRuby<(T0Unwrap, T1Unwrap, T2Unwrap, T3Unwrap, T4Unwrap)> for (T0, T1, T2, T3, T4) {
    open spec fn from_ruby_spec(
        self,
        result: Result<(T0Unwrap, T1Unwrap, T2Unwrap, T3Unwrap, T4Unwrap), Error>,
    ) -> bool {
        match result {
            Ok(converted) => {
                &&& self.0.from_ruby_spec(Ok(converted.0))
                &&& self.1.from_ruby_spec(Ok(converted.1))
                &&& self.2.from_ruby_spec(Ok(converted.2))
                &&& self.3.from_ruby_spec(Ok(converted.3))
                &&& self.4.from_ruby_spec(Ok(converted.4))
            },
            Err(error) => {
                ||| self.0.from_ruby_spec(Err(error))
                ||| {
                    &&& can_from_ruby::<T0, T0Unwrap>(self.0)
                    &&& self.1.from_ruby_spec(Err(error))
                }
                ||| {
                    &&& can_from_ruby::<T0, T0Unwrap>(self.0)
                    &&& can_from_ruby::<T1, T1Unwrap>(self.1)
                    &&& self.2.from_ruby_spec(Err(error))
                }
                ||| {
                    &&& can_from_ruby::<T0, T0Unwrap>(self.0)
                    &&& can_from_ruby::<T1, T1Unwrap>(self.1)
                    &&& can_from_ruby::<T2, T2Unwrap>(self.2)
                    &&& self.3.from_ruby_spec(Err(error))
                }
                ||| {
                    &&& can_from_ruby::<T0, T0Unwrap>(self.0)
                    &&& can_from_ruby::<T1, T1Unwrap>(self.1)
                    &&& can_from_ruby::<T2, T2Unwrap>(self.2)
                    &&& can_from_ruby::<T3, T3Unwrap>(self.3)
                    &&& self.4.from_ruby_spec(Err(error))
                }
            },
        }
    }

    fn from_ruby(self) -> (result: Result<
        (T0Unwrap, T1Unwrap, T2Unwrap, T3Unwrap, T4Unwrap),
        Error,
    >) {
        let c0 = match self.0.from_ruby() {
            Ok(converted) => converted,
            Err(error) => {
                return Err(error);
            },
        };
        assert(can_from_ruby::<T0, T0Unwrap>(self.0)) by {
            assert(self.0.from_ruby_spec(Ok(c0)));
        }
        let c1 = match self.1.from_ruby() {
            Ok(converted) => converted,
            Err(error) => {
                return Err(error);
            },
        };
        assert(can_from_ruby::<T1, T1Unwrap>(self.1)) by {
            assert(self.1.from_ruby_spec(Ok(c1)));
        }
        let c2 = match self.2.from_ruby() {
            Ok(converted) => converted,
            Err(error) => {
                return Err(error);
            },
        };
        assert(can_from_ruby::<T2, T2Unwrap>(self.2)) by {
            assert(self.2.from_ruby_spec(Ok(c2)));
        }
        let c3 = match self.3.from_ruby() {
            Ok(converted) => converted,
            Err(error) => {
                return Err(error);
            },
        };
        assert(can_from_ruby::<T3, T3Unwrap>(self.3)) by {
            assert(self.3.from_ruby_spec(Ok(c3)));
        }
        let c4 = match self.4.from_ruby() {
            Ok(converted) => converted,
            Err(error) => {
                return Err(error);
            },
        };
        assert(can_from_ruby::<T4, T4Unwrap>(self.4)) by {
            assert(self.4.from_ruby_spec(Ok(c4)));
        }
        Ok((c0, c1, c2, c3, c4))
    }
}

impl<
    T0: FromRuby<T0Unwrap>,
    T0Unwrap,
    T1: FromRuby<T1Unwrap>,
    T1Unwrap,
    T2: FromRuby<T2Unwrap>,
    T2Unwrap,
    T3: FromRuby<T3Unwrap>,
    T3Unwrap,
    T4: FromRuby<T4Unwrap>,
    T4Unwrap,
    T5: FromRuby<T5Unwrap>,
    T5Unwrap,
> FromRuby<(T0Unwrap, T1Unwrap, T2Unwrap, T3Unwrap, T4Unwrap, T5Unwrap)>
    for (T0, T1, T2, T3, T4, T5) {
    open spec fn from_ruby_spec(
        self,
        result: Result<(T0Unwrap, T1Unwrap, T2Unwrap, T3Unwrap, T4Unwrap, T5Unwrap), Error>,
    ) -> bool {
        match result {
            Ok(converted) => {
                &&& self.0.from_ruby_spec(Ok(converted.0))
                &&& self.1.from_ruby_spec(Ok(converted.1))
                &&& self.2.from_ruby_spec(Ok(converted.2))
                &&& self.3.from_ruby_spec(Ok(converted.3))
                &&& self.4.from_ruby_spec(Ok(converted.4))
                &&& self.5.from_ruby_spec(Ok(converted.5))
            },
            Err(error) => {
                ||| self.0.from_ruby_spec(Err(error))
                ||| {
                    &&& can_from_ruby::<T0, T0Unwrap>(self.0)
                    &&& self.1.from_ruby_spec(Err(error))
                }
                ||| {
                    &&& can_from_ruby::<T0, T0Unwrap>(self.0)
                    &&& can_from_ruby::<T1, T1Unwrap>(self.1)
                    &&& self.2.from_ruby_spec(Err(error))
                }
                ||| {
                    &&& can_from_ruby::<T0, T0Unwrap>(self.0)
                    &&& can_from_ruby::<T1, T1Unwrap>(self.1)
                    &&& can_from_ruby::<T2, T2Unwrap>(self.2)
                    &&& self.3.from_ruby_spec(Err(error))
                }
                ||| {
                    &&& can_from_ruby::<T0, T0Unwrap>(self.0)
                    &&& can_from_ruby::<T1, T1Unwrap>(self.1)
                    &&& can_from_ruby::<T2, T2Unwrap>(self.2)
                    &&& can_from_ruby::<T3, T3Unwrap>(self.3)
                    &&& self.4.from_ruby_spec(Err(error))
                }
                ||| {
                    &&& can_from_ruby::<T0, T0Unwrap>(self.0)
                    &&& can_from_ruby::<T1, T1Unwrap>(self.1)
                    &&& can_from_ruby::<T2, T2Unwrap>(self.2)
                    &&& can_from_ruby::<T3, T3Unwrap>(self.3)
                    &&& can_from_ruby::<T4, T4Unwrap>(self.4)
                    &&& self.5.from_ruby_spec(Err(error))
                }
            },
        }
    }

    fn from_ruby(self) -> (result: Result<
        (T0Unwrap, T1Unwrap, T2Unwrap, T3Unwrap, T4Unwrap, T5Unwrap),
        Error,
    >) {
        let c0 = match self.0.from_ruby() {
            Ok(converted) => converted,
            Err(error) => {
                return Err(error);
            },
        };
        assert(can_from_ruby::<T0, T0Unwrap>(self.0)) by {
            assert(self.0.from_ruby_spec(Ok(c0)));
        }
        let c1 = match self.1.from_ruby() {
            Ok(converted) => converted,
            Err(error) => {
                return Err(error);
            },
        };
        assert(can_from_ruby::<T1, T1Unwrap>(self.1)) by {
            assert(self.1.from_ruby_spec(Ok(c1)));
        }
        let c2 = match self.2.from_ruby() {
            Ok(converted) => converted,
            Err(error) => {
                return Err(error);
            },
        };
        assert(can_from_ruby::<T2, T2Unwrap>(self.2)) by {
            assert(self.2.from_ruby_spec(Ok(c2)));
        }
        let c3 = match self.3.from_ruby() {
            Ok(converted) => converted,
            Err(error) => {
                return Err(error);
            },
        };
        assert(can_from_ruby::<T3, T3Unwrap>(self.3)) by {
            assert(self.3.from_ruby_spec(Ok(c3)));
        }
        let c4 = match self.4.from_ruby() {
            Ok(converted) => converted,
            Err(error) => {
                return Err(error);
            },
        };
        assert(can_from_ruby::<T4, T4Unwrap>(self.4)) by {
            assert(self.4.from_ruby_spec(Ok(c4)));
        }
        let c5 = match self.5.from_ruby() {
            Ok(converted) => converted,
            Err(error) => {
                return Err(error);
            },
        };
        assert(can_from_ruby::<T5, T5Unwrap>(self.5)) by {
            assert(self.5.from_ruby_spec(Ok(c5)));
        }
        Ok((c0, c1, c2, c3, c4, c5))
    }
}

} // verus!
