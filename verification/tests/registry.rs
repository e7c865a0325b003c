use libfmod_ext::error::Error;
use libfmod_ext::extern_struct_storage::{
    cleanup, contains, get, get_or_insert, get_or_insert_with, remove, roots, ExternStruct,
    ExternStructKind, ExternStructStorage, Observed, Probe, DEFAULT_USERDATA, KEY_STRIDE,
};
use std::cell::Cell;

const ALL_KINDS: [ExternStructKind; 16] = [
    ExternStructKind::StudioSystem,
    ExternStructKind::Bank,
    ExternStructKind::EventDescription,
    ExternStructKind::EventInstance,
    ExternStructKind::CommandReplay,
    ExternStructKind::Bus,
    ExternStructKind::Vca,
    ExternStructKind::Reverb3D,
    ExternStructKind::SoundGroup,
    ExternStructKind::ChannelControl,
    ExternStructKind::Dsp,
    ExternStructKind::Sound,
    ExternStructKind::Geometry,
    ExternStructKind::DspConnection,
    ExternStructKind::SyncPoint,
    ExternStructKind::System,
];

fn sound(id: usize) -> ExternStruct {
    ExternStruct { kind: ExternStructKind::Sound, id }
}

#[test]
fn end_to_end_wrap_release_rewrap() {
    let mut storage: ExternStructStorage<u64> = ExternStructStorage::new();
    let first = get_or_insert_with(&mut storage, sound(0x1000), || 1);
    let second = get_or_insert_with(&mut storage, sound(0x1000), || 2);
    assert_eq!(first, 1);
    assert_eq!(second, first);
    assert_eq!(remove(&mut storage, sound(0x1000)), Ok(1));
    assert!(!contains(&storage, sound(0x1000)));
    let third = get_or_insert_with(&mut storage, sound(0x1000), || 3);
    assert_eq!(third, 3);
    assert_ne!(third, first);
    assert!(contains(&storage, sound(0x1000)));
}

#[test]
fn new_storage_holds_nothing() {
    let storage: ExternStructStorage<u64> = ExternStructStorage::new();
    for kind in ALL_KINDS {
        assert!(!contains(&storage, ExternStruct { kind, id: 0 }));
    }
    assert_eq!(roots(&storage), Vec::<u64>::new());
}

#[test]
fn constructor_runs_once_for_one_object() {
    let mut storage: ExternStructStorage<u64> = ExternStructStorage::new();
    let made = Cell::new(0u64);
    let make = || {
        made.set(made.get() + 1);
        100 + made.get()
    };
    assert_eq!(get_or_insert_with(&mut storage, sound(8), make), 101);
    assert_eq!(get_or_insert_with(&mut storage, sound(8), make), 101);
    assert_eq!(get_or_insert_with(&mut storage, sound(8), make), 101);
    assert_eq!(made.get(), 1);
    assert_eq!(get_or_insert_with(&mut storage, sound(16), make), 102);
    assert_eq!(made.get(), 2);
}

#[test]
fn identity_outlasts_what_happens_to_other_objects() {
    let mut storage: ExternStructStorage<u64> = ExternStructStorage::new();
    let dsp = ExternStruct { kind: ExternStructKind::Dsp, id: 0x1000 };
    assert_eq!(get_or_insert(&mut storage, sound(0x1000), 1), 1);
    assert_eq!(get_or_insert(&mut storage, dsp, 2), 2);
    assert_eq!(get_or_insert(&mut storage, sound(0x2000), 3), 3);
    assert_eq!(remove(&mut storage, dsp), Ok(2));
    cleanup(&mut storage, |value: ExternStruct| value.id == 0x1000);
    assert!(!contains(&storage, sound(0x2000)));
    assert_eq!(get_or_insert(&mut storage, sound(0x1000), 9), 1);
    assert_eq!(get(&storage, sound(0x1000)), Ok(1));
}

#[test]
fn get_or_insert_keeps_the_first_wrapper() {
    let mut storage: ExternStructStorage<&str> = ExternStructStorage::new();
    assert_eq!(get_or_insert(&mut storage, sound(1), "first"), "first");
    assert_eq!(get_or_insert(&mut storage, sound(1), "second"), "first");
    assert_eq!(get(&storage, sound(1)), Ok("first"));
}

#[test]
fn same_address_of_another_kind_is_another_object() {
    let mut storage: ExternStructStorage<u64> = ExternStructStorage::new();
    for (i, kind) in ALL_KINDS.into_iter().enumerate() {
        let wrapper = get_or_insert(&mut storage, ExternStruct { kind, id: 0x1000 }, i as u64);
        assert_eq!(wrapper, i as u64);
    }
    for (i, kind) in ALL_KINDS.into_iter().enumerate() {
        assert_eq!(get(&storage, ExternStruct { kind, id: 0x1000 }), Ok(i as u64));
    }
    let mut held = roots(&storage);
    held.sort();
    assert_eq!(held, (0..16).collect::<Vec<u64>>());
}

#[test]
fn remove_of_an_absent_object_is_reported() {
    let mut storage: ExternStructStorage<u64> = ExternStructStorage::new();
    assert_eq!(get_or_insert(&mut storage, sound(1), 1), 1);
    assert_eq!(remove(&mut storage, sound(2)), Err(Error::NotRegistered(sound(2))));
    assert!(contains(&storage, sound(1)));
    assert_eq!(remove(&mut storage, sound(1)), Ok(1));
    assert_eq!(remove(&mut storage, sound(1)), Err(Error::NotRegistered(sound(1))));
}

#[test]
fn lookup_of_an_absent_object_is_reported() {
    let mut storage: ExternStructStorage<u64> = ExternStructStorage::new();
    assert_eq!(get(&storage, sound(1)), Err(Error::NotRegistered(sound(1))));
    assert_eq!(get_or_insert(&mut storage, sound(1), 5), 5);
    assert_eq!(get(&storage, sound(1)), Ok(5));
    let dsp = ExternStruct { kind: ExternStructKind::Dsp, id: 1 };
    assert_eq!(get(&storage, dsp), Err(Error::NotRegistered(dsp)));
}

#[test]
fn sweep_keeps_the_live_and_drops_the_stale() {
    let mut storage: ExternStructStorage<u64> = ExternStructStorage::new();
    let live = sound(0x10);
    let stale = sound(0x20);
    assert_eq!(get_or_insert(&mut storage, live, 1), 1);
    assert_eq!(get_or_insert(&mut storage, stale, 2), 2);
    let asked = Cell::new(0);
    cleanup(&mut storage, |value: ExternStruct| {
        asked.set(asked.get() + 1);
        value == live
    });
    assert_eq!(asked.get(), 2);
    assert!(contains(&storage, live));
    assert!(!contains(&storage, stale));
    assert_eq!(get(&storage, live), Ok(1));
    assert_eq!(roots(&storage), vec![1]);
}

#[test]
fn sweep_of_an_empty_storage_asks_nothing() {
    let mut storage: ExternStructStorage<u64> = ExternStructStorage::new();
    let asked = Cell::new(0);
    cleanup(&mut storage, |_: ExternStruct| {
        asked.set(asked.get() + 1);
        false
    });
    assert_eq!(asked.get(), 0);
}

#[test]
fn sweep_by_the_sentinel() {
    let mut storage: ExternStructStorage<u64> = ExternStructStorage::new();
    let playing = sound(0x100);
    let finished = sound(0x200);
    let lost = ExternStruct { kind: ExternStructKind::ChannelControl, id: 0x300 };
    let system = ExternStruct { kind: ExternStructKind::System, id: 0x400 };
    let bank = ExternStruct { kind: ExternStructKind::Bank, id: 0x500 };
    for (i, value) in [playing, finished, lost, system, bank].into_iter().enumerate() {
        assert_eq!(get_or_insert(&mut storage, value, i as u64), i as u64);
    }
    cleanup(&mut storage, |value: ExternStruct| {
        let observed = match value.kind.probe() {
            Probe::Nothing => Observed::Nothing,
            Probe::IsValid => Observed::IsValid(false),
            Probe::Userdata => match value.id {
                0x100 => Observed::Userdata(Ok(DEFAULT_USERDATA)),
                0x200 => Observed::Userdata(Ok(0)),
                _ => Observed::Userdata(Err(30)),
            },
        };
        value.is_valid(observed)
    });
    assert!(contains(&storage, playing));
    assert!(!contains(&storage, finished));
    assert!(!contains(&storage, lost));
    assert!(contains(&storage, system));
    assert!(!contains(&storage, bank));
}

#[test]
fn roots_are_the_wrappers_held() {
    let mut storage: ExternStructStorage<u64> = ExternStructStorage::new();
    assert_eq!(get_or_insert(&mut storage, sound(1), 11), 11);
    assert_eq!(get_or_insert(&mut storage, sound(2), 22), 22);
    assert_eq!(get_or_insert(&mut storage, sound(3), 33), 33);
    assert_eq!(remove(&mut storage, sound(2)), Ok(22));
    let mut held = roots(&storage);
    held.sort();
    assert_eq!(held, vec![11, 33]);
}

#[test]
fn keys_give_each_kind_a_range_of_its_own() {
    assert_eq!(KEY_STRIDE, 1u128 << 64);
    assert_eq!(sound(0x1000).key(), 11 * (1u128 << 64) + 0x1000);
    assert_eq!(ExternStruct { kind: ExternStructKind::StudioSystem, id: 7 }.key(), 7);
    assert_eq!(
        ExternStruct { kind: ExternStructKind::System, id: usize::MAX }.key(),
        15 * (1u128 << 64) + usize::MAX as u128
    );
    for (i, kind) in ALL_KINDS.into_iter().enumerate() {
        assert_eq!(kind.index() as usize, i);
        assert_eq!(ExternStruct { kind, id: 0 }.key(), i as u128 * KEY_STRIDE);
    }
}

#[test]
fn probe_of_each_kind() {
    let expected = [
        Probe::IsValid,
        Probe::IsValid,
        Probe::IsValid,
        Probe::IsValid,
        Probe::IsValid,
        Probe::IsValid,
        Probe::IsValid,
        Probe::Userdata,
        Probe::Userdata,
        Probe::Userdata,
        Probe::Userdata,
        Probe::Userdata,
        Probe::Userdata,
        Probe::Userdata,
        Probe::Nothing,
        Probe::Nothing,
    ];
    for (kind, probe) in ALL_KINDS.into_iter().zip(expected) {
        assert_eq!(kind.probe(), probe);
    }
}

#[test]
fn userdata_slot_of_each_kind() {
    for kind in ALL_KINDS {
        let without = matches!(
            kind,
            ExternStructKind::Bus | ExternStructKind::Vca | ExternStructKind::SyncPoint
        );
        assert_eq!(kind.has_userdata(), !without);
    }
}

#[test]
fn sentinel_is_written_where_liveness_is_read_from_the_slot() {
    assert_eq!(DEFAULT_USERDATA, 0xDEAD_CAFE);
    for kind in ALL_KINDS {
        let value = ExternStruct { kind, id: 0x40 };
        let expected =
            if kind.probe() == Probe::Userdata { Some(0xDEAD_CAFE) } else { None };
        assert_eq!(value.default_userdata(), expected);
    }
}

#[test]
fn liveness_by_the_sentinel() {
    let value = sound(1);
    assert!(value.is_valid(Observed::Userdata(Ok(0xDEAD_CAFE))));
    assert!(!value.is_valid(Observed::Userdata(Ok(0))));
    assert!(!value.is_valid(Observed::Userdata(Ok(0xDEAD_CAFF))));
    assert!(!value.is_valid(Observed::Userdata(Err(31))));
    assert!(!value.is_valid(Observed::IsValid(true)));
    assert!(!value.is_valid(Observed::Nothing));
}

#[test]
fn liveness_by_the_engine() {
    let value = ExternStruct { kind: ExternStructKind::EventInstance, id: 1 };
    assert!(value.is_valid(Observed::IsValid(true)));
    assert!(!value.is_valid(Observed::IsValid(false)));
    assert!(!value.is_valid(Observed::Userdata(Ok(0xDEAD_CAFE))));
    assert!(!value.is_valid(Observed::Nothing));
}

#[test]
fn liveness_is_assumed_where_the_engine_gives_no_sign() {
    for kind in [ExternStructKind::SyncPoint, ExternStructKind::System] {
        let value = ExternStruct { kind, id: 1 };
        assert!(value.is_valid(Observed::Nothing));
        assert!(value.is_valid(Observed::IsValid(false)));
        assert!(value.is_valid(Observed::Userdata(Err(31))));
    }
}
