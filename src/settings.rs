//! The six keys of the configuration document and their values.
use vstd::prelude::*;

verus! {

/// A key that the configuration document may hold.
#[derive(Clone, Copy, Debug, PartialEq, Eq, Structural)]
pub enum SettingKey {
    FieldOfView,
    DistanceMultiplier,
    RenderDistanceStart,
    RenderDistanceEnd,
    AspectWidth,
    AspectHeight,
}

/// The name under which a key is written in the document.
pub open spec fn key_name(k: SettingKey) -> Seq<char> {
    match k {
        SettingKey::FieldOfView => "field_of_view"@,
        SettingKey::DistanceMultiplier => "distance_multiplier"@,
        SettingKey::RenderDistanceStart => "render_distance_start"@,
        SettingKey::RenderDistanceEnd => "render_distance_end"@,
        SettingKey::AspectWidth => "aspect_width"@,
        SettingKey::AspectHeight => "aspect_height"@,
    }
}

/// The key written as `name`, if any.
pub open spec fn key_of(name: Seq<char>) -> Option<SettingKey> {
    if name == key_name(SettingKey::FieldOfView) {
        Some(SettingKey::FieldOfView)
    } else if name == key_name(SettingKey::DistanceMultiplier) {
        Some(SettingKey::DistanceMultiplier)
    } else if name == key_name(SettingKey::RenderDistanceStart) {
        Some(SettingKey::RenderDistanceStart)
    } else if name == key_name(SettingKey::RenderDistanceEnd) {
        Some(SettingKey::RenderDistanceEnd)
    } else if name == key_name(SettingKey::AspectWidth) {
        Some(SettingKey::AspectWidth)
    } else if name == key_name(SettingKey::AspectHeight) {
        Some(SettingKey::AspectHeight)
    } else {
        None
    }
}

/// A name is recognised when it is the name of a key.
pub open spec fn is_key_name(name: Seq<char>) -> bool {
    key_of(name) is Some
}

impl SettingKey {
    /// The name of this key in the document.
    pub fn name(self) -> (r: &'static str)
        ensures
            r@ == key_name(self),
    {
        match self {
            SettingKey::FieldOfView => "field_of_view",
            SettingKey::DistanceMultiplier => "distance_multiplier",
            SettingKey::RenderDistanceStart => "render_distance_start",
            SettingKey::RenderDistanceEnd => "render_distance_end",
            SettingKey::AspectWidth => "aspect_width",
            SettingKey::AspectHeight => "aspect_height",
        }
    }

    /// The key written as `name`, if there is one.
    pub fn from_name(name: &String) -> (r: Option<SettingKey>)
        ensures
            r == key_of(name@),
    {
        let keys = [
            SettingKey::FieldOfView,
            SettingKey::DistanceMultiplier,
            SettingKey::RenderDistanceStart,
            SettingKey::RenderDistanceEnd,
            SettingKey::AspectWidth,
            SettingKey::AspectHeight,
        ];
        let mut i: usize = 0;
        while i < 6
            invariant
                i <= 6,
                keys@ == seq![
                    SettingKey::FieldOfView,
                    SettingKey::DistanceMultiplier,
                    SettingKey::RenderDistanceStart,
                    SettingKey::RenderDistanceEnd,
                    SettingKey::AspectWidth,
                    SettingKey::AspectHeight,
                ],
                forall|j: int| 0 <= j < i ==> key_name(#[trigger] keys@[j]) != name@,
            decreases 6 - i,
        {
            let k = keys[i];
            let candidate = k.name().to_owned();
            if *name == candidate {
                proof {
                    lemma_key_of_name(k);
                }
                return Some(k);
            }
            i = i + 1;
        }
        proof {
            assert(key_name(keys@[0]) != name@);
            assert(key_name(keys@[1]) != name@);
            assert(key_name(keys@[2]) != name@);
            assert(key_name(keys@[3]) != name@);
            assert(key_name(keys@[4]) != name@);
            assert(key_name(keys@[5]) != name@);
        }
        None
    }
}

/// Each key is found again from its name.
pub proof fn lemma_key_of_name(k: SettingKey)
    ensures
        key_of(key_name(k)) == Some(k),
{
    reveal_strlit("field_of_view");
    reveal_strlit("distance_multiplier");
    reveal_strlit("render_distance_start");
    reveal_strlit("render_distance_end");
    reveal_strlit("aspect_width");
    reveal_strlit("aspect_height");
    assert(key_name(SettingKey::FieldOfView).len() == 13);
    assert(key_name(SettingKey::DistanceMultiplier).len() == 19);
    assert(key_name(SettingKey::RenderDistanceStart).len() == 21);
    assert(key_name(SettingKey::RenderDistanceEnd).len() == 19);
    assert(key_name(SettingKey::AspectWidth).len() == 12);
    assert(key_name(SettingKey::AspectHeight).len() == 13);
    assert(key_name(SettingKey::FieldOfView)[0] != key_name(SettingKey::AspectHeight)[0]);
    assert(key_name(SettingKey::DistanceMultiplier)[0] != key_name(SettingKey::RenderDistanceEnd)[0]);
}

/// Two keys with one name are the same key.
pub proof fn lemma_key_name_injective(a: SettingKey, b: SettingKey)
    ensures
        key_name(a) == key_name(b) ==> a == b,
{
    lemma_key_of_name(a);
    lemma_key_of_name(b);
}

/// The slot that holds a key's value in a table of six.
pub open spec fn key_index(k: SettingKey) -> int {
    match k {
        SettingKey::FieldOfView => 0,
        SettingKey::DistanceMultiplier => 1,
        SettingKey::RenderDistanceStart => 2,
        SettingKey::RenderDistanceEnd => 3,
        SettingKey::AspectWidth => 4,
        SettingKey::AspectHeight => 5,
    }
}

impl SettingKey {
    fn index(self) -> (r: usize)
        ensures
            r as int == key_index(self),
    {
        match self {
            SettingKey::FieldOfView => 0,
            SettingKey::DistanceMultiplier => 1,
            SettingKey::RenderDistanceStart => 2,
            SettingKey::RenderDistanceEnd => 3,
            SettingKey::AspectWidth => 4,
            SettingKey::AspectHeight => 5,
        }
    }
}

/// One top-level entry of a parsed configuration document: its key, and its
/// value as a single-precision bit pattern when the value is a number
/// (`None` when it is a string, a table or any other kind of value).
#[derive(Debug)]
pub struct DocumentEntry {
    pub key: String,
    pub number: Option<u32>,
}

/// A document is taken when every entry has a recognised key and a numeric
/// value, and no key is written twice.
pub open spec fn entries_accepted(e: Seq<DocumentEntry>) -> bool {
    &&& forall|i: int| 0 <= i < e.len() ==> is_key_name((#[trigger] e[i]).key@) && (e[i].number is Some)
    &&& forall|i: int, j: int| 0 <= i < j < e.len() ==> #[trigger] e[i].key@ != #[trigger] e[j].key@
}

/// The document holds an entry for `k`.
pub open spec fn has_entry(e: Seq<DocumentEntry>, k: SettingKey) -> bool {
    exists|j: int| 0 <= j < e.len() && #[trigger] e[j].key@ == key_name(k)
}

/// The value that a document gives `k`: the number of its entry, or zero
/// (the bit pattern of `+0.0`) when the document has none.
pub open spec fn setting_value(e: Seq<DocumentEntry>, k: SettingKey) -> u32 {
    if has_entry(e, k) {
        let j = choose|j: int| 0 <= j < e.len() && #[trigger] e[j].key@ == key_name(k);
        match e[j].number {
            Some(v) => v,
            None => 0,
        }
    } else {
        0
    }
}

/// The six values of a configuration document, as written there.
#[derive(Clone, Copy, Debug, PartialEq, Eq, Structural)]
pub struct CameraSettings {
    pub field_of_view: u32,
    pub distance_multiplier: u32,
    pub render_distance_start: u32,
    pub render_distance_end: u32,
    pub aspect_width: u32,
    pub aspect_height: u32,
}

/// The field of `s` that holds `k`.
pub open spec fn settings_field(s: CameraSettings, k: SettingKey) -> u32 {
    match k {
        SettingKey::FieldOfView => s.field_of_view,
        SettingKey::DistanceMultiplier => s.distance_multiplier,
        SettingKey::RenderDistanceStart => s.render_distance_start,
        SettingKey::RenderDistanceEnd => s.render_distance_end,
        SettingKey::AspectWidth => s.aspect_width,
        SettingKey::AspectHeight => s.aspect_height,
    }
}

/// The settings that a document gives, when it is taken.
pub open spec fn settings_of(e: Seq<DocumentEntry>) -> Option<CameraSettings> {
    if entries_accepted(e) {
        Some(
            CameraSettings {
                field_of_view: setting_value(e, SettingKey::FieldOfView),
                distance_multiplier: setting_value(e, SettingKey::DistanceMultiplier),
                render_distance_start: setting_value(e, SettingKey::RenderDistanceStart),
                render_distance_end: setting_value(e, SettingKey::RenderDistanceEnd),
                aspect_width: setting_value(e, SettingKey::AspectWidth),
                aspect_height: setting_value(e, SettingKey::AspectHeight),
            },
        )
    } else {
        None
    }
}

impl CameraSettings {
    /// Reads the settings from the entries of a document. The document is
    /// taken whole or not at all: an unrecognised key, a value that is not a
    /// number or a key written twice rejects it. A key the document leaves
    /// out reads as zero.
    #[verifier::rlimit(40)]
    pub fn from_entries(entries: &Vec<DocumentEntry>) -> (r: Option<CameraSettings>)
        ensures
            r is Some <==> entries_accepted(entries@),
            r matches Some(s) ==> forall|k: SettingKey|
                settings_field(s, k) == setting_value(entries@, k),
            r == settings_of(entries@),
    {
        let mut slots: Vec<Option<u32>> = vec![None, None, None, None, None, None];
        let mut i: usize = 0;
        while i < entries.len()
            invariant
                i <= entries@.len(),
                slots@.len() == 6,
                forall|j: int| 0 <= j < i ==> is_key_name((#[trigger] entries@[j]).key@)
                    && (entries@[j].number is Some),
                forall|a: int, b: int| 0 <= a < b < i ==> #[trigger] entries@[a].key@
                    != #[trigger] entries@[b].key@,
                forall|k: SettingKey| (#[trigger] slots@[key_index(k)]) is Some <==> exists|j: int|
                    0 <= j < i && #[trigger] entries@[j].key@ == key_name(k),
                forall|k: SettingKey, j: int| 0 <= j < i && #[trigger] entries@[j].key@
                    == #[trigger] key_name(k) ==> slots@[key_index(k)] == entries@[j].number,
            decreases entries@.len() - i,
        {
            let entry = &entries[i];
            let key = match SettingKey::from_name(&entry.key) {
                Some(k) => k,
                None => {
                    assert(!is_key_name(entries@[i as int].key@));
                    return None;
                }
            };
            let value = match entry.number {
                Some(v) => v,
                None => {
                    assert(entries@[i as int].number is None);
                    return None;
                }
            };
            let slot = key.index();
            if slots[slot].is_some() {
                proof {
                    let j = choose|j: int| 0 <= j < i && #[trigger] entries@[j].key@ == key_name(key);
                    assert(entries@[j].key@ == entries@[i as int].key@);
                    assert(!entries_accepted(entries@));
                }
                return None;
            }
            proof {
                assert forall|a: int, b: int| 0 <= a < b < i + 1 implies #[trigger] entries@[a].key@
                    != #[trigger] entries@[b].key@ by {
                    if b == i {
                        if entries@[a].key@ == entries@[b].key@ {
                            assert(slots@[key_index(key)] is Some);
                        }
                    }
                }
            }
            let ghost before = slots@;
            slots.set(slot, Some(value));
            proof {
                assert forall|k: SettingKey| (#[trigger] slots@[key_index(k)]) is Some <==> exists|j: int|
                    0 <= j < i + 1 && #[trigger] entries@[j].key@ == key_name(k) by {
                    lemma_key_name_injective(k, key);
                    if k == key {
                        assert(entries@[i as int].key@ == key_name(k));
                    } else {
                        assert(before[key_index(k)] == slots@[key_index(k)]);
                    }
                }
                assert forall|k: SettingKey, j: int| 0 <= j < i + 1 && #[trigger] entries@[j].key@
                    == #[trigger] key_name(k) implies slots@[key_index(k)] == entries@[j].number by {
                    lemma_key_name_injective(k, key);
                    if k != key {
                        assert(before[key_index(k)] == slots@[key_index(k)]);
                    }
                }
            }
            assert forall|j: int| 0 <= j < i + 1 implies is_key_name((#[trigger] entries@[j]).key@)
                && (entries@[j].number is Some) by {
                if j == i {
                    assert(key_of(entries@[j].key@) == Some(key));
                }
            }
            i = i + 1;
        }
        assert(entries_accepted(entries@));
        let r = CameraSettings {
            field_of_view: Self::slot_value(&slots, SettingKey::FieldOfView.index()),
            distance_multiplier: Self::slot_value(&slots, SettingKey::DistanceMultiplier.index()),
            render_distance_start: Self::slot_value(&slots, SettingKey::RenderDistanceStart.index()),
            render_distance_end: Self::slot_value(&slots, SettingKey::RenderDistanceEnd.index()),
            aspect_width: Self::slot_value(&slots, SettingKey::AspectWidth.index()),
            aspect_height: Self::slot_value(&slots, SettingKey::AspectHeight.index()),
        };
        proof {
            assert forall|k: SettingKey| settings_field(r, k) == setting_value(entries@, k) by {
                if has_entry(entries@, k) {
                    let j = choose|j: int| 0 <= j < entries@.len() && #[trigger] entries@[j].key@
                        == key_name(k);
                    assert(slots@[key_index(k)] == entries@[j].number);
                } else {
                    assert(slots@[key_index(k)] is None);
                }
            }
            assert(settings_field(r, SettingKey::FieldOfView) == setting_value(entries@, SettingKey::FieldOfView));
            assert(settings_field(r, SettingKey::DistanceMultiplier) == setting_value(entries@, SettingKey::DistanceMultiplier));
            assert(settings_field(r, SettingKey::RenderDistanceStart) == setting_value(entries@, SettingKey::RenderDistanceStart));
            assert(settings_field(r, SettingKey::RenderDistanceEnd) == setting_value(entries@, SettingKey::RenderDistanceEnd));
            assert(settings_field(r, SettingKey::AspectWidth) == setting_value(entries@, SettingKey::AspectWidth));
            assert(settings_field(r, SettingKey::AspectHeight) == setting_value(entries@, SettingKey::AspectHeight));
        }
        Some(r)
    }

    fn slot_value(slots: &Vec<Option<u32>>, i: usize) -> (r: u32)
        requires
            i < slots@.len(),
        ensures
            r == match slots@[i as int] {
                Some(v) => v,
                None => 0u32,
            },
    {
        match slots[i] {
            Some(v) => v,
            None => 0,
        }
    }
}

} // verus!
