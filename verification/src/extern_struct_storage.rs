//! The handle registry: one canonical wrapper for each native engine object.
//!
//! The engine hands out bare addresses and reuses them once an object is gone. The
//! registry maps each wrapped object, by kind and address, to the one host-side
//! wrapper that stands for it, so that wrapping the same object again yields the same
//! wrapper, and it forgets an object when it is released or found dead.
use crate::error::Error;
use std::collections::HashMap;
use vstd::prelude::*;
use vstd::std_specs::iter::IteratorSpec;

verus! {

broadcast use vstd::std_specs::hash::group_hash_axioms;

/// The kinds of engine object that can be wrapped.
#[derive(Clone, Copy, Debug, PartialEq, Eq, Hash, Structural)]
pub enum ExternStructKind {
    StudioSystem,
    Bank,
    EventDescription,
    EventInstance,
    CommandReplay,
    Bus,
    Vca,
    Reverb3D,
    SoundGroup,
    ChannelControl,
    Dsp,
    Sound,
    Geometry,
    DspConnection,
    SyncPoint,
    System,
}

impl ExternStructKind {
    /// The position of the kind in the list of kinds.
    pub open spec fn spec_index(self) -> u8 {
        match self {
            ExternStructKind::StudioSystem => 0,
            ExternStructKind::Bank => 1,
            ExternStructKind::EventDescription => 2,
            ExternStructKind::EventInstance => 3,
            ExternStructKind::CommandReplay => 4,
            ExternStructKind::Bus => 5,
            ExternStructKind::Vca => 6,
            ExternStructKind::Reverb3D => 7,
            ExternStructKind::SoundGroup => 8,
            ExternStructKind::ChannelControl => 9,
            ExternStructKind::Dsp => 10,
            ExternStructKind::Sound => 11,
            ExternStructKind::Geometry => 12,
            ExternStructKind::DspConnection => 13,
            ExternStructKind::SyncPoint => 14,
            ExternStructKind::System => 15,
        }
    }

    #[verifier::when_used_as_spec(spec_index)]
    pub fn index(self) -> (i: u8)
        ensures
            i == self.spec_index(),
            i < 16,
    {
        match self {
            ExternStructKind::StudioSystem => 0,
            ExternStructKind::Bank => 1,
            ExternStructKind::EventDescription => 2,
            ExternStructKind::EventInstance => 3,
            ExternStructKind::CommandReplay => 4,
            ExternStructKind::Bus => 5,
            ExternStructKind::Vca => 6,
            ExternStructKind::Reverb3D => 7,
            ExternStructKind::SoundGroup => 8,
            ExternStructKind::ChannelControl => 9,
            ExternStructKind::Dsp => 10,
            ExternStructKind::Sound => 11,
            ExternStructKind::Geometry => 12,
            ExternStructKind::DspConnection => 13,
            ExternStructKind::SyncPoint => 14,
            ExternStructKind::System => 15,
        }
    }
}

/// An engine object as the registry knows it: its kind and its address. It owns
/// nothing; two are the same object exactly when both parts agree.
#[derive(Clone, Copy, Debug, PartialEq, Eq, Hash, Structural)]
pub struct ExternStruct {
    pub kind: ExternStructKind,
    pub id: usize,
}

/// The number of addresses set aside for each kind in the key space.
pub const KEY_STRIDE: u128 = 0x1_0000_0000_0000_0000;

impl ExternStruct {
    /// The number under which the object is filed: kinds get disjoint ranges.
    pub open spec fn spec_key(self) -> u128 {
        (self.kind.spec_index() * KEY_STRIDE + self.id) as u128
    }

    /// Different objects are filed under different keys.
    pub broadcast proof fn lemma_key_identifies(self, other: ExternStruct)
        ensures
            #![trigger self.spec_key(), other.spec_key()]
            self.spec_key() == other.spec_key() <==> self == other,
    {
    }

    #[verifier::when_used_as_spec(spec_key)]
    pub fn key(self) -> (k: u128)
        ensures
            k == self.spec_key(),
    {
        let kind: u128 = self.kind.index() as u128;
        kind * KEY_STRIDE + (self.id as u128)
    }
}

/// The value written into an object's user-data slot when the object is wrapped. The
/// engine clears or reuses the slot when it destroys the object, so finding another
/// value there later means that the object is gone.
pub const DEFAULT_USERDATA: usize = 0xDEAD_CAFE;

/// How the engine can be asked whether an object of some kind is still alive.
#[derive(Clone, Copy, Debug, PartialEq, Eq, Structural)]
pub enum Probe {
    /// The engine answers for the object itself.
    IsValid,
    /// The object's user-data slot is read back and held against the sentinel.
    Userdata,
    /// The engine gives no sign; the object counts as alive.
    Nothing,
}

/// What the engine said when it was asked.
#[derive(Clone, Copy, Debug)]
pub enum Observed {
    /// The engine's own answer.
    IsValid(bool),
    /// What the user-data slot held, or the engine's error code where the read failed.
    Userdata(Result<usize, u32>),
    /// Nothing was asked.
    Nothing,
}

impl ExternStructKind {
    /// How liveness is found out for this kind.
    pub open spec fn spec_probe(self) -> Probe {
        match self {
            ExternStructKind::StudioSystem
            | ExternStructKind::Bank
            | ExternStructKind::EventDescription
            | ExternStructKind::EventInstance
            | ExternStructKind::CommandReplay
            | ExternStructKind::Bus
            | ExternStructKind::Vca => Probe::IsValid,
            ExternStructKind::SyncPoint | ExternStructKind::System => Probe::Nothing,
            ExternStructKind::Reverb3D
            | ExternStructKind::SoundGroup
            | ExternStructKind::ChannelControl
            | ExternStructKind::Dsp
            | ExternStructKind::Sound
            | ExternStructKind::Geometry
            | ExternStructKind::DspConnection => Probe::Userdata,
        }
    }

    #[verifier::when_used_as_spec(spec_probe)]
    pub fn probe(self) -> (probe: Probe)
        ensures
            probe == self.spec_probe(),
    {
        match self {
            ExternStructKind::StudioSystem
            | ExternStructKind::Bank
            | ExternStructKind::EventDescription
            | ExternStructKind::EventInstance
            | ExternStructKind::CommandReplay
            | ExternStructKind::Bus
            | ExternStructKind::Vca => Probe::IsValid,
            ExternStructKind::SyncPoint | ExternStructKind::System => Probe::Nothing,
            ExternStructKind::Reverb3D
            | ExternStructKind::SoundGroup
            | ExternStructKind::ChannelControl
            | ExternStructKind::Dsp
            | ExternStructKind::Sound
            | ExternStructKind::Geometry
            | ExternStructKind::DspConnection => Probe::Userdata,
        }
    }

    /// Whether objects of this kind have a user-data slot that can be read at all:
    /// all but buses, VCAs and sync points.
    pub fn has_userdata(self) -> (has: bool)
        ensures
            has == !(self == ExternStructKind::Bus || self == ExternStructKind::Vca || self
                == ExternStructKind::SyncPoint),
    {
        match self {
            ExternStructKind::Bus | ExternStructKind::Vca | ExternStructKind::SyncPoint => false,
            _ => true,
        }
    }
}

impl ExternStruct {
    /// Whether the object is alive, going by what the engine said about it.
    ///
    /// Where the engine gives no sign the object is alive. Where it answers for the
    /// object, its answer stands. Where the user-data slot is read, the object is alive
    /// exactly if the read succeeded and found the sentinel. An observation of the
    /// wrong sort for the kind shows nothing, and the object counts as dead.
    pub open spec fn spec_is_valid(self, observed: Observed) -> bool {
        match self.kind.probe() {
            Probe::Nothing => true,
            Probe::IsValid => observed == Observed::IsValid(true),
            Probe::Userdata => observed == Observed::Userdata(Ok(DEFAULT_USERDATA)),
        }
    }

    #[verifier::when_used_as_spec(spec_is_valid)]
    pub fn is_valid(self, observed: Observed) -> (valid: bool)
        ensures
            valid == self.spec_is_valid(observed),
    {
        match self.kind.probe() {
            Probe::Nothing => true,
            Probe::IsValid => match observed {
                Observed::IsValid(answer) => answer,
                _ => false,
            },
            Probe::Userdata => match observed {
                Observed::Userdata(Ok(userdata)) => userdata == DEFAULT_USERDATA,
                _ => false,
            },
        }
    }

    /// What to write into the object's user-data slot when it is wrapped: the
    /// sentinel, for the kinds whose liveness is read from the slot, and nothing for
    /// the others.
    pub fn default_userdata(self) -> (userdata: Option<usize>)
        ensures
            userdata == if self.kind.probe() == Probe::Userdata {
                Some(DEFAULT_USERDATA)
            } else {
                None
            },
    {
        match self.kind.probe() {
            Probe::Userdata => Some(DEFAULT_USERDATA),
            _ => None,
        }
    }
}

/// The registry: at most one wrapper for each engine object.
///
/// `W` is the host's reference to a wrapper object. The registry holds it for as long
/// as the object stays registered and hands out copies of it.
pub struct ExternStructStorage<W> {
    map: HashMap<u128, (ExternStruct, W)>,
}

impl<W> View for ExternStructStorage<W> {
    type V = Map<ExternStruct, W>;

    closed spec fn view(&self) -> Map<ExternStruct, W> {
        Map::new(
            |value: ExternStruct| self.map@.contains_key(value.key()),
            |value: ExternStruct| self.map@[value.key()].1,
        )
    }
}

impl<W> ExternStructStorage<W> {
    #[verifier::type_invariant]
    spec fn inv(self) -> bool {
        forall|k: u128| #[trigger] self.map@.contains_key(k) ==> self.map@[k].0.key() == k
    }

    /// A registry that holds nothing.
    pub fn new() -> (storage: Self)
        ensures
            storage@ == Map::<ExternStruct, W>::empty(),
    {
        let storage = ExternStructStorage { map: HashMap::new() };
        assert(storage@ =~= Map::<ExternStruct, W>::empty());
        storage
    }
}

/// The keys of `map`, each once, in the order in which the map hands them out.
fn keys_of<W>(map: &HashMap<u128, (ExternStruct, W)>) -> (keys: Vec<u128>)
    ensures
        keys@.to_set() == map@.dom(),
        keys@.no_duplicates(),
{
    let mut keys: Vec<u128> = Vec::new();
    for k in it: map.keys()
        invariant
            it.seq() == map.keys().remaining(),
            keys@.len() == it.index(),
            forall|i: int| 0 <= i < keys@.len() ==> keys@[i] == *it.seq()[i],
    {
        keys.push(*k);
    }
    assert(keys@ =~= map.keys().remaining().unref());
    keys
}

/// The objects filed under `keys`, in the order of the keys: each registered object
/// once. So a registry has as many entries as the table behind it has keys.
proof fn lemma_registry_size<W>(
    table: Map<u128, (ExternStruct, W)>,
    registry: Map<ExternStruct, W>,
    keys: Seq<u128>,
) -> (objects: Seq<ExternStruct>)
    requires
        keys.no_duplicates(),
        keys.to_set() == table.dom(),
        forall|k: u128| #[trigger] table.contains_key(k) ==> table[k].0.key() == k,
        forall|value: ExternStruct|
            registry.contains_key(value) <==> table.contains_key(#[trigger] value.key()),
    ensures
        objects.len() == keys.len(),
        forall|i: int| 0 <= i < keys.len() ==> (#[trigger] objects[i]).key() == keys[i],
        objects.no_duplicates(),
        objects.to_set() == registry.dom(),
        registry.dom().finite(),
        registry.dom().len() == keys.len(),
{
    broadcast use ExternStruct::lemma_key_identifies;

    let objects = keys.map_values(|k: u128| table[k].0);
    assert forall|i: int| 0 <= i < keys.len() implies (#[trigger] objects[i]).key() == keys[i] by {
        assert(keys.to_set().contains(keys[i]));
    }
    assert forall|value: ExternStruct|
        objects.to_set().contains(value) <==> registry.dom().contains(value) by {
        if objects.to_set().contains(value) {
            let i = choose|i: int| 0 <= i < objects.len() && objects[i] == value;
            assert(keys.to_set().contains(keys[i]));
        }
        if registry.dom().contains(value) {
            assert(keys.to_set().contains(value.key()));
            let i = choose|i: int| 0 <= i < keys.len() && keys[i] == value.key();
            assert(objects[i] == value);
        }
    }
    assert(objects.to_set() =~= registry.dom());
    objects.unique_seq_to_set();
    objects
}

/// The registry once `value` has been wrapped, where `made` is the wrapper that is
/// made if there is none yet: an object that is registered keeps its wrapper.
pub open spec fn wrapped<W>(registry: Map<ExternStruct, W>, value: ExternStruct, made: W) -> Map<
    ExternStruct,
    W,
> {
    if registry.contains_key(value) {
        registry
    } else {
        registry.insert(value, made)
    }
}

/// Whether `value` is registered.
pub fn contains<W>(storage: &ExternStructStorage<W>, value: ExternStruct) -> (found: bool)
    ensures
        found == storage@.contains_key(value),
{
    let key = value.key();
    storage.map.contains_key(&key)
}

/// The wrapper under which `value` is registered. To ask for an object that is not
/// registered is a mistake of the caller and is reported as one.
pub fn get<W: Copy>(storage: &ExternStructStorage<W>, value: ExternStruct) -> (found: Result<
    W,
    Error,
>)
    ensures
        storage@.contains_key(value) ==> found == Ok::<W, Error>(storage@[value]),
        !storage@.contains_key(value) ==> found == Err::<W, Error>(Error::NotRegistered(value)),
{
    let key = value.key();
    match storage.map.get(&key) {
        Some(entry) => Ok(entry.1),
        None => Err(Error::NotRegistered(value)),
    }
}

/// The wrapper of `value`: the registered one if there is one, else the one that `f`
/// makes, which is then registered. `f` is called only where nothing was registered.
/// Looking up and registering are one step: nobody else can reach the registry while
/// it is borrowed here.
pub fn get_or_insert_with<W: Copy, F: FnOnce() -> W>(
    storage: &mut ExternStructStorage<W>,
    value: ExternStruct,
    f: F,
) -> (wrapper: W)
    requires
        !old(storage)@.contains_key(value) ==> f.requires(()),
    ensures
        final(storage)@ == wrapped(old(storage)@, value, wrapper),
        final(storage)@[value] == wrapper,
        !old(storage)@.contains_key(value) ==> f.ensures((), wrapper),
{
    proof {
        use_type_invariant(&*storage);
    }
    let key = value.key();
    let mut map = HashMap::new();
    std::mem::swap(&mut map, &mut storage.map);
    let found = match map.get(&key) {
        Some(entry) => Some(entry.1),
        None => None,
    };
    let wrapper = match found {
        Some(wrapper) => wrapper,
        None => {
            let wrapper = f();
            map.insert(key, (value, wrapper));
            wrapper
        },
    };
    storage.map = map;
    proof {
        broadcast use ExternStruct::lemma_key_identifies;

        if old(storage)@.contains_key(value) {
            assert(storage@ =~= old(storage)@);
        } else {
            assert(storage@ =~= old(storage)@.insert(value, wrapper));
        }
    }
    wrapper
}

/// The wrapper of `value`: the registered one if there is one, else `wrapper`, which is
/// then registered.
pub fn get_or_insert<W: Copy>(
    storage: &mut ExternStructStorage<W>,
    value: ExternStruct,
    wrapper: W,
) -> (registered: W)
    ensures
        final(storage)@ == wrapped(old(storage)@, value, wrapper),
        final(storage)@[value] == registered,
{
    let make = || -> (made: W)
        ensures
            made == wrapper,
        { wrapper };
    get_or_insert_with(storage, value, make)
}

/// Forgets `value` and hands back the wrapper that stood for it. To release an object
/// that is not registered is a mistake of the caller and is reported as one; the
/// registry is then left as it was.
pub fn remove<W>(storage: &mut ExternStructStorage<W>, value: ExternStruct) -> (removed: Result<
    W,
    Error,
>)
    ensures
        final(storage)@ == old(storage)@.remove(value),
        old(storage)@.contains_key(value) ==> removed == Ok::<W, Error>(old(storage)@[value]),
        !old(storage)@.contains_key(value) ==> removed == Err::<W, Error>(
            Error::NotRegistered(value),
        ),
{
    proof {
        use_type_invariant(&*storage);
    }
    let key = value.key();
    let mut map = HashMap::new();
    std::mem::swap(&mut map, &mut storage.map);
    let removed = map.remove(&key);
    storage.map = map;
    proof {
        broadcast use ExternStruct::lemma_key_identifies;

        assert(storage@ =~= old(storage)@.remove(value));
    }
    match removed {
        Some(entry) => Ok(entry.1),
        None => Err(Error::NotRegistered(value)),
    }
}

/// What a sweep with `is_valid` makes of a registry: nothing is added and no wrapper
/// is changed, and of every object that was registered `is_valid` has said whether it
/// is still there.
pub open spec fn swept<W, F: Fn(ExternStruct) -> bool>(
    before: Map<ExternStruct, W>,
    after: Map<ExternStruct, W>,
    is_valid: F,
) -> bool {
    &&& forall|value: ExternStruct| #[trigger]
        after.contains_key(value) ==> before.contains_key(value) && after[value] == before[value]
    &&& forall|value: ExternStruct|
        #![trigger before.contains_key(value)]
        #![trigger after.contains_key(value)]
        before.contains_key(value) ==> is_valid.ensures((value,), after.contains_key(value))
}

/// Sweeps the registry: asks `is_valid` about every registered object, once, and
/// forgets those for which it says no.
pub fn cleanup<W, F: Fn(ExternStruct) -> bool>(storage: &mut ExternStructStorage<W>, is_valid: F)
    requires
        forall|value: ExternStruct| #[trigger]
            old(storage)@.contains_key(value) ==> is_valid.requires((value,)),
    ensures
        swept(old(storage)@, final(storage)@, is_valid),
{
    proof {
        use_type_invariant(&*storage);
    }
    let mut map = HashMap::new();
    std::mem::swap(&mut map, &mut storage.map);
    let ghost before = map@;
    let keys = keys_of(&map);
    proof {
        assert forall|value: ExternStruct|
            before.contains_key(#[trigger] value.key()) implies is_valid.requires((value,)) by {
            assert(old(storage)@.contains_key(value));
        }
    }
    let mut i: usize = 0;
    while i < keys.len()
        invariant
            i <= keys.len(),
            keys@.to_set() == before.dom(),
            keys@.no_duplicates(),
            forall|k: u128| #[trigger] before.contains_key(k) ==> before[k].0.key() == k,
            forall|k: u128| #[trigger]
                map@.contains_key(k) ==> before.contains_key(k) && map@[k] == before[k],
            forall|j: int| i <= j < keys.len() ==> map@.contains_key(#[trigger] keys@[j]),
            forall|j: int|
                0 <= j < i ==> is_valid.ensures(
                    (before[#[trigger] keys@[j]].0,),
                    map@.contains_key(keys@[j]),
                ),
            forall|value: ExternStruct|
                before.contains_key(#[trigger] value.key()) ==> is_valid.requires((value,)),
        decreases keys.len() - i,
    {
        let k = keys[i];
        assert(keys@.to_set().contains(keys@[i as int]));
        let found = match map.get(&k) {
            Some(entry) => Some(entry.0),
            None => None,
        };
        if let Some(value) = found {
            assert(value.key() == k);
            if !is_valid(value) {
                map.remove(&k);
            }
        }
        i += 1;
    }
    storage.map = map;
    proof {
        broadcast use ExternStruct::lemma_key_identifies;

        // Every registered object had its key among `keys`, so it was asked about,
        // and whether its key is still there is what `is_valid` said.
        assert forall|value: ExternStruct| #[trigger]
            old(storage)@.contains_key(value) implies is_valid.ensures(
            (value,),
            storage@.contains_key(value),
        ) by {
            let k = value.key();
            assert(keys@.to_set().contains(k));
            let j = choose|j: int| 0 <= j < keys@.len() && keys@[j] == k;
            assert(before[keys@[j]].0 == value);
        }
        assert forall|value: ExternStruct| #[trigger]
            storage@.contains_key(value) implies old(storage)@.contains_key(value)
            && storage@[value] == old(storage)@[value] by {
            assert(before.contains_key(value.key()));
        }
    }
}

/// A sweep whose verdict is a fact about the object keeps exactly the live entries.
pub proof fn lemma_sweep_keeps_the_live<W, F: Fn(ExternStruct) -> bool>(
    before: Map<ExternStruct, W>,
    after: Map<ExternStruct, W>,
    is_valid: F,
    live: Set<ExternStruct>,
)
    requires
        swept(before, after, is_valid),
        forall|value: ExternStruct, verdict: bool|
            before.contains_key(value) && #[trigger] is_valid.ensures((value,), verdict)
                ==> verdict == live.contains(value),
    ensures
        after == before.restrict(live),
{
    assert(after =~= before.restrict(live));
}

/// The wrappers of `objects`, in their order.
pub open spec fn wrappers_of<W>(registry: Map<ExternStruct, W>, objects: Seq<ExternStruct>) -> Seq<
    W,
> {
    Seq::new(objects.len(), |i: int| registry[objects[i]])
}

/// Whether `roots` lists the wrappers of `registry`, one for each registered object,
/// in some order of the objects.
pub open spec fn lists_wrappers<W>(registry: Map<ExternStruct, W>, roots: Seq<W>) -> bool {
    exists|objects: Seq<ExternStruct>|
        {
            &&& objects.no_duplicates()
            &&& objects.to_set() == registry.dom()
            &&& #[trigger] wrappers_of(registry, objects) == roots
        }
}

/// The wrappers that the registry holds, one for each registered object. The host
/// has to keep exactly these alive: the registry may hold the only reference to a
/// wrapper that a native callback still has to find again.
pub fn roots<W: Copy>(storage: &ExternStructStorage<W>) -> (roots: Vec<W>)
    ensures
        lists_wrappers(storage@, roots@),
        storage@.dom().finite(),
        roots@.len() == storage@.dom().len(),
{
    proof {
        use_type_invariant(storage);
    }
    let keys = keys_of(&storage.map);
    let mut roots: Vec<W> = Vec::new();
    let mut i: usize = 0;
    while i < keys.len()
        invariant
            i <= keys.len(),
            keys@.to_set() == storage.map@.dom(),
            roots@.len() == i,
            forall|j: int| 0 <= j < i ==> roots@[j] == storage.map@[#[trigger] keys@[j]].1,
        decreases keys.len() - i,
    {
        let k = keys[i];
        assert(keys@.to_set().contains(keys@[i as int]));
        if let Some(entry) = storage.map.get(&k) {
            roots.push(entry.1);
        }
        i += 1;
    }
    proof {
        let objects = lemma_registry_size(storage.map@, storage@, keys@);
        assert forall|j: int| 0 <= j < keys@.len() implies storage@[objects[j]] == roots@[j] by {
            assert(keys@.to_set().contains(keys@[j]));
        }
        assert(wrappers_of(storage@, objects) =~= roots@);
    }
    roots
}

/// The wrappers listed are the values of the registry, as a set.
pub proof fn lemma_roots_are_the_values<W>(registry: Map<ExternStruct, W>, roots: Seq<W>)
    requires
        lists_wrappers(registry, roots),
    ensures
        roots.to_set() == registry.values(),
{
    let objects = choose|objects: Seq<ExternStruct>|
        {
            &&& objects.no_duplicates()
            &&& objects.to_set() == registry.dom()
            &&& #[trigger] wrappers_of(registry, objects) == roots
        };
    assert forall|w: W| roots.to_set().contains(w) <==> registry.values().contains(w) by {
        if roots.to_set().contains(w) {
            let j = choose|j: int| 0 <= j < roots.len() && roots[j] == w;
            assert(objects.to_set().contains(objects[j]));
            assert(registry.contains_key(objects[j]) && registry[objects[j]] == w);
        }
        if registry.values().contains(w) {
            let value = choose|value: ExternStruct|
                registry.contains_key(value) && registry[value] == w;
            assert(objects.to_set().contains(value));
            let j = choose|j: int| 0 <= j < objects.len() && objects[j] == value;
            assert(roots[j] == w);
        }
    }
    assert(roots.to_set() =~= registry.values());
}

/// One change to a registry, as a value.
pub enum Change<W> {
    /// An object is wrapped; `made` is the wrapper that is made if there is none yet.
    Wrap { value: ExternStruct, made: W },
    /// An object is released.
    Remove { value: ExternStruct },
    /// A sweep that finds exactly the objects in `live` alive.
    Cleanup { live: Set<ExternStruct> },
}

impl<W> Change<W> {
    /// The registry after the change.
    pub open spec fn apply(self, registry: Map<ExternStruct, W>) -> Map<ExternStruct, W> {
        match self {
            Change::Wrap { value, made } => wrapped(registry, value, made),
            Change::Remove { value } => registry.remove(value),
            Change::Cleanup { live } => registry.restrict(live),
        }
    }

    /// Whether the change leaves `value` alone: it is not the release of `value`, nor a
    /// sweep that finds `value` dead.
    pub open spec fn spares(self, value: ExternStruct) -> bool {
        match self {
            Change::Wrap { .. } => true,
            Change::Remove { value: removed } => removed != value,
            Change::Cleanup { live } => live.contains(value),
        }
    }
}

/// The registry after `changes`, made in order.
pub open spec fn apply_all<W>(registry: Map<ExternStruct, W>, changes: Seq<Change<W>>) -> Map<
    ExternStruct,
    W,
>
    decreases changes.len(),
{
    if changes.len() == 0 {
        registry
    } else {
        changes.last().apply(apply_all(registry, changes.drop_last()))
    }
}

/// Identity is stable: once an object is wrapped, every later wrapping of it yields
/// the same wrapper, whatever else is wrapped, released or swept in between, until the
/// object itself is released or found dead. As long as that holds, nothing is made for
/// it again and the wrapper on offer is ignored.
pub proof fn lemma_identity_is_stable<W>(
    registry: Map<ExternStruct, W>,
    value: ExternStruct,
    made: W,
    changes: Seq<Change<W>>,
    again: W,
)
    requires
        forall|i: int| 0 <= i < changes.len() ==> (#[trigger] changes[i]).spares(value),
    ensures
        ({
            let first = wrapped(registry, value, made);
            let later = apply_all(first, changes);
            &&& later.contains_key(value)
            &&& later[value] == first[value]
            &&& wrapped(later, value, again) == later
        }),
    decreases changes.len(),
{
    if changes.len() > 0 {
        assert forall|i: int| 0 <= i < changes.drop_last().len() implies (
        #[trigger] changes.drop_last()[i]).spares(value) by {
            assert(changes.drop_last()[i] == changes[i]);
        }
        lemma_identity_is_stable(registry, value, made, changes.drop_last(), again);
        assert(changes.last() == changes[changes.len() - 1]);
    }
}

/// Eviction: once an object is released, wrapping the same kind and address again
/// registers the wrapper that is made then. What stood for the address before has no
/// part in it, so a reused address gets a wrapper of its own.
pub proof fn lemma_wrap_after_remove_is_new<W>(
    registry: Map<ExternStruct, W>,
    value: ExternStruct,
    made: W,
)
    ensures
        !registry.remove(value).contains_key(value),
        wrapped(registry.remove(value), value, made) == registry.remove(value).insert(value, made),
        wrapped(registry.remove(value), value, made)[value] == made,
        registry.contains_key(value) && made != registry[value] ==> wrapped(
            registry.remove(value),
            value,
            made,
        )[value] != registry[value],
{
}

} // verus!
