//! The persistence-facing data model and the session state.
//!
//! Maps and markers are separately addressable records keyed by numeric
//! ids; a map record references its markers by id and its parent by
//! optional id.  Reading and writing the records on disk is the
//! persistence collaborator's job; this module holds the records as plain
//! values, the session state (current map, loaded maps, navigation
//! history) and the record-file naming scheme.

use std::collections::HashMap;

use vstd::prelude::*;
use vstd::string::*;

use crate::position::Position;

verus! {

/// An ASCII decimal digit.
pub open spec fn is_digit(c: char) -> bool {
    48 <= c as int <= 57
}

/// The numeric value of a digit character (zero for anything else).
pub open spec fn char_digit(c: char) -> nat {
    if is_digit(c) {
        (c as int - 48) as nat
    } else {
        0
    }
}

/// Every character of `s` is a decimal digit.
pub open spec fn all_digits(s: Seq<char>) -> bool {
    forall|k: int| 0 <= k < s.len() ==> is_digit(#[trigger] s[k])
}

/// The number a digit string denotes, most significant digit first.
pub open spec fn digits_val(s: Seq<char>) -> nat
    decreases s.len(),
{
    if s.len() == 0 {
        0
    } else {
        10 * digits_val(s.drop_last()) + char_digit(s.last())
    }
}

/// The index of the first `'-'` in `s`, or `s.len()` if there is none.
pub open spec fn first_dash_index(s: Seq<char>) -> int
    decreases s.len(),
{
    if s.len() == 0 {
        0
    } else if s[0] == '-' {
        0
    } else {
        1 + first_dash_index(s.drop_first())
    }
}

/// The digit character for `d < 10`.
pub open spec fn dec_digit_char(d: nat) -> char {
    if d == 0 {
        '0'
    } else if d == 1 {
        '1'
    } else if d == 2 {
        '2'
    } else if d == 3 {
        '3'
    } else if d == 4 {
        '4'
    } else if d == 5 {
        '5'
    } else if d == 6 {
        '6'
    } else if d == 7 {
        '7'
    } else if d == 8 {
        '8'
    } else {
        '9'
    }
}

/// The decimal rendering of `n`, most significant digit first, without
/// leading zeros (a single `'0'` for zero).
pub open spec fn dec_str(n: nat) -> Seq<char>
    decreases n,
{
    if n < 10 {
        seq![dec_digit_char(n)]
    } else {
        dec_str(n / 10).push(dec_digit_char(n % 10))
    }
}

broadcast use vstd::std_specs::hash::group_hash_axioms;

/// The id of a map record.
#[derive(Clone, Copy, Debug, PartialEq, Eq, Hash, Structural)]
pub struct MapId(pub u64);

impl MapId {
    pub fn new(raw: u64) -> (r: MapId)
        ensures
            r.0 == raw,
    {
        MapId(raw)
    }
}

/// The id of a marker record.
#[derive(Clone, Copy, Debug, PartialEq, Eq, Hash, Structural)]
pub struct MarkerId(pub u64);

impl MarkerId {
    pub fn new(raw: u64) -> (r: MarkerId)
        ensures
            r.0 == raw,
    {
        MarkerId(raw)
    }
}

/// The free-text notes attached to a map.
#[derive(Clone, Debug)]
pub struct MapInfo {
    pub content: String,
}

/// A clickable point on a map that links to another map: a world-space
/// position, the image drawn for it, and the destination map id.
#[derive(Clone, Debug)]
pub struct Marker {
    pub map_id: MapId,
    pub position: Position,
    pub image: String,
}

/// One map: its markers, its notes, its background image reference and
/// its optional parent map.
#[derive(Clone, Debug)]
pub struct MapData {
    pub markers: Vec<Marker>,
    pub map_info: MapInfo,
    pub image: String,
    pub parent_id: Option<MapId>,
}

impl MapData {
    /// Every marker position is a well-formed point.
    pub open spec fn wf(self) -> bool {
        forall|i: int| 0 <= i < self.markers@.len() ==> (#[trigger] self.markers@[i]).position.wf()
    }
}

/// The on-disk shape of a map record: markers by id, notes, image
/// reference and optional parent.
#[derive(Clone, Debug)]
pub struct MapOnFile {
    pub marker_ids: Vec<MarkerId>,
    pub map_info: MapInfo,
    pub image: String,
    pub parent_id: Option<MapId>,
}

/// What a record-file name denotes: a map record, a marker record, or
/// neither.
#[derive(Clone, Copy, Debug, PartialEq, Eq, Structural)]
pub enum FileType {
    MapFile(MapId),
    MarkerFile(MarkerId),
    Unrecognized,
}

/// What [`get_filetype`] reads out of a file name: `"map-<digits>"` or
/// `"marker-<digits>"` up to the second dash (or the end), with the
/// digits fitting a `u64`; anything else is unrecognized.
pub open spec fn spec_filetype(s: Seq<char>) -> FileType {
    let i = first_dash_index(s);
    if i >= s.len() {
        FileType::Unrecognized
    } else {
        let head = s.subrange(0, i);
        let rest = s.subrange(i + 1, s.len() as int);
        let seg = rest.subrange(0, first_dash_index(rest));
        if seg.len() == 0 || !all_digits(seg) || digits_val(seg) > u64::MAX {
            FileType::Unrecognized
        } else if head == "map"@ {
            FileType::MapFile(MapId(digits_val(seg) as u64))
        } else if head == "marker"@ {
            FileType::MarkerFile(MarkerId(digits_val(seg) as u64))
        } else {
            FileType::Unrecognized
        }
    }
}

/// The record-file name for a map or marker id:
/// `"map-<id>.json"` or `"marker-<id>.json"`.
pub open spec fn spec_filename(ft: FileType) -> Seq<char> {
    match ft {
        FileType::MapFile(id) => "map-"@ + dec_str(id.0 as nat) + ".json"@,
        FileType::MarkerFile(id) => "marker-"@ + dec_str(id.0 as nat) + ".json"@,
        FileType::Unrecognized => Seq::<char>::empty(),
    }
}

/// Why a navigation operation was refused.  The session state is left
/// exactly as it was.
#[derive(Clone, Copy, Debug, PartialEq, Eq, Structural)]
pub enum ProjectError {
    /// A referenced map id is not among the loaded maps.
    MissingAsset,
}

/// The whole session: the loaded maps keyed by raw id, the map on
/// screen, and the LIFO history of previously visited maps.
pub struct ProjectState {
    pub current_map: MapId,
    pub maps: HashMap<u64, MapData>,
    pub map_history_stack: Vec<MapId>,
}

impl ProjectState {
    /// Every loaded map is well-formed.
    pub open spec fn wf(self) -> bool {
        forall|k: u64| self.maps@.contains_key(k) ==> (#[trigger] self.maps@[k]).wf()
    }

    /// An empty session: no maps, current id zero, empty history.
    pub fn new() -> (r: ProjectState)
        ensures
            r.wf(),
            r.current_map.0 == 0,
            r.maps@ == Map::<u64, MapData>::empty(),
            r.map_history_stack@ == Seq::<MapId>::empty(),
    {
        ProjectState {
            current_map: MapId(0),
            maps: HashMap::new(),
            map_history_stack: Vec::new(),
        }
    }

    /// Put a loaded map under its id, replacing any previous record.
    pub fn add_map(&mut self, id: MapId, map: MapData)
        requires
            old(self).wf(),
            map.wf(),
        ensures
            final(self).wf(),
            final(self).maps@ == old(self).maps@.insert(id.0, map),
            final(self).current_map == old(self).current_map,
            final(self).map_history_stack == old(self).map_history_stack,
    {
        self.maps.insert(id.0, map);
    }

    /// Make `id` the map on screen without touching the history (used
    /// when a freshly loaded project picks its first map).
    pub fn set_current(&mut self, id: MapId)
        requires
            old(self).wf(),
        ensures
            final(self).wf(),
            final(self).current_map == id,
            final(self).maps@ == old(self).maps@,
            final(self).map_history_stack == old(self).map_history_stack,
    {
        self.current_map = id;
    }

    pub fn contains_map(&self, id: &MapId) -> (r: bool)
        ensures
            r == self.maps@.contains_key(id.0),
    {
        self.maps.contains_key(&id.0)
    }

    /// The map stored under `id`, if it is loaded.
    pub fn get_map(&self, id: &MapId) -> (r: Option<&MapData>)
        ensures
            match r {
                Some(m) => self.maps@.contains_key(id.0) && *m == self.maps@[id.0],
                None => !self.maps@.contains_key(id.0),
            },
    {
        self.maps.get(&id.0)
    }

    /// The map on screen.
    pub fn current_map(&self) -> (r: &MapData)
        requires
            self.maps@.contains_key(self.current_map.0),
        ensures
            *r == self.maps@[self.current_map.0],
    {
        self.maps.get(&self.current_map.0).unwrap()
    }

    /// Jump to `target`: push the map on screen onto the history and
    /// make `target` current.  A target that is not loaded is refused
    /// and nothing changes.
    pub fn switch_to_map(&mut self, target: MapId) -> (r: Result<(), ProjectError>)
        requires
            old(self).wf(),
        ensures
            r is Ok <==> old(self).maps@.contains_key(target.0),
            match r {
                Ok(()) => {
                    &&& final(self).wf()
                    &&& final(self).current_map == target
                    &&& final(self).map_history_stack@ == old(self).map_history_stack@.push(
                        old(self).current_map,
                    )
                    &&& final(self).maps@ == old(self).maps@
                },
                Err(e) => e == ProjectError::MissingAsset && final(self).current_map == old(self).current_map && final(self).maps@ == old(self).maps@ && final(self).map_history_stack == old(self).map_history_stack,
            },
    {
        if !self.maps.contains_key(&target.0) {
            return Err(ProjectError::MissingAsset);
        }
        self.map_history_stack.push(self.current_map);
        self.current_map = target;
        Ok(())
    }

    /// Back-navigation: pop the most recently visited map off the
    /// history and return to it.  Only jumps push onto the history, so
    /// repeated backs walk the whole stack.  On an empty history
    /// nothing changes; a popped id that is not loaded is refused and
    /// nothing changes.
    pub fn back(&mut self) -> (r: Result<Option<MapId>, ProjectError>)
        requires
            old(self).wf(),
        ensures
            old(self).map_history_stack@.len() == 0 ==> r == Ok::<
                Option<MapId>,
                ProjectError,
            >(None) && final(self).current_map == old(self).current_map && final(self).maps@ == old(self).maps@ && final(self).map_history_stack == old(self).map_history_stack,
            old(self).map_history_stack@.len() > 0 ==> {
                let prev = old(self).map_history_stack@.last();
                if old(self).maps@.contains_key(prev.0) {
                    &&& r == Ok::<Option<MapId>, ProjectError>(Some(prev))
                    &&& final(self).wf()
                    &&& final(self).current_map == prev
                    &&& final(self).map_history_stack@ == old(self).map_history_stack@.drop_last()
                    &&& final(self).maps@ == old(self).maps@
                } else {
                    &&& r == Err::<Option<MapId>, ProjectError>(ProjectError::MissingAsset)
                    &&& final(self).current_map == old(self).current_map
                    &&& final(self).maps@ == old(self).maps@
                    &&& final(self).map_history_stack == old(self).map_history_stack
                }
            },
    {
        let n = self.map_history_stack.len();
        if n == 0 {
            return Ok(None);
        }
        let prev = self.map_history_stack[n - 1];
        if !self.maps.contains_key(&prev.0) {
            return Err(ProjectError::MissingAsset);
        }
        self.map_history_stack.pop();
        self.current_map = prev;
        Ok(Some(prev))
    }
}

/// A scan that saw no dash before `i`, and a dash (or the end) at `i`,
/// found the first dash.
proof fn lemma_first_dash_index(s: Seq<char>, i: int)
    requires
        0 <= i <= s.len(),
        forall|k: int| 0 <= k < i ==> s[k] != '-',
        i < s.len() ==> s[i] == '-',
    ensures
        first_dash_index(s) == i,
    decreases s.len(),
{
    if s.len() == 0 {
    } else if s[0] == '-' {
        assert(i == 0);
    } else {
        assert(i >= 1);
        lemma_first_dash_index(s.drop_first(), i - 1);
    }
}

/// Reading one more digit multiplies the prefix value by ten and adds
/// it.
proof fn lemma_digits_val_step(s: Seq<char>, k: int)
    requires
        0 <= k < s.len(),
    ensures
        digits_val(s.subrange(0, k + 1)) == 10 * digits_val(s.subrange(0, k)) + char_digit(s[k]),
{
    let p = s.subrange(0, k + 1);
    assert(p.drop_last() =~= s.subrange(0, k));
    assert(p.last() == s[k]);
}

/// The value of a digit string never falls below the value of any of
/// its prefixes.
proof fn lemma_digits_val_prefix_le(s: Seq<char>, k: int)
    requires
        0 <= k <= s.len(),
    ensures
        digits_val(s.subrange(0, k)) <= digits_val(s),
    decreases s.len() - k,
{
    if k == s.len() {
        assert(s.subrange(0, k) =~= s);
    } else {
        lemma_digits_val_step(s, k);
        lemma_digits_val_prefix_le(s, k + 1);
    }
}

/// Classify a record-file name: `"map-<digits>"` or
/// `"marker-<digits>"`, where the digit run ends at the next dash or at
/// the end of the name and must fit a `u64`.
pub fn get_filetype(name: &str) -> (r: FileType)
    ensures
        r == spec_filetype(name@),
{
    let n: usize = name.unicode_len();
    let mut i: usize = 0;
    while i < n && name.get_char(i) != '-'
        invariant
            0 <= i <= n,
            n == name@.len(),
            forall|k: int| 0 <= k < i ==> name@[k] != '-',
        decreases n - i,
    {
        i = i + 1;
    }
    proof {
        lemma_first_dash_index(name@, i as int);
    }
    if i >= n {
        return FileType::Unrecognized;
    }
    let is_map = i == 3 && name.get_char(0) == 'm' && name.get_char(1) == 'a' && name.get_char(2)
        == 'p';
    let is_marker = i == 6 && name.get_char(0) == 'm' && name.get_char(1) == 'a' && name.get_char(
        2,
    ) == 'r' && name.get_char(3) == 'k' && name.get_char(4) == 'e' && name.get_char(5) == 'r';
    proof {
        reveal_strlit("map");
        reveal_strlit("marker");
        if is_map {
            assert(name@.subrange(0, i as int) =~= "map"@);
        }
        if is_marker {
            assert(name@.subrange(0, i as int) =~= "marker"@);
        }
        if !is_map && name@.subrange(0, i as int) == "map"@ {
            assert(name@.subrange(0, i as int).len() == 3);
            assert(name@[0] == "map"@[0] && name@[1] == "map"@[1] && name@[2] == "map"@[2]);
            assert(false);
        }
        if !is_marker && name@.subrange(0, i as int) == "marker"@ {
            assert(name@.subrange(0, i as int).len() == 6);
            assert(name@[0] == "marker"@[0] && name@[1] == "marker"@[1] && name@[2] == "marker"@[2]
                && name@[3] == "marker"@[3] && name@[4] == "marker"@[4] && name@[5]
                == "marker"@[5]);
            assert(false);
        }
    }
    if !is_map && !is_marker {
        return FileType::Unrecognized;
    }
    let ghost rest = name@.subrange(i + 1, n as int);
    let mut j: usize = i + 1;
    while j < n && name.get_char(j) != '-'
        invariant
            i + 1 <= j <= n,
            n == name@.len(),
            rest == name@.subrange(i + 1, n as int),
            forall|k: int| i + 1 <= k < j ==> name@[k] != '-',
        decreases n - j,
    {
        j = j + 1;
    }
    proof {
        assert forall|k: int| 0 <= k < j - i - 1 implies rest[k] != '-' by {
            assert(rest[k] == name@[i + 1 + k]);
        }
        lemma_first_dash_index(rest, j - i - 1);
        assert(rest.subrange(0, j - i - 1) =~= name@.subrange(i + 1, j as int));
    }
    let ghost seg = name@.subrange(i + 1, j as int);
    if j == i + 1 {
        return FileType::Unrecognized;
    }
    let mut val: u64 = 0;
    let mut k: usize = i + 1;
    while k < j
        invariant
            i + 1 <= k <= j <= n,
            n == name@.len(),
            first_dash_index(name@) == i as int,
            i < n,
            is_map == (name@.subrange(0, i as int) == "map"@),
            is_marker == (name@.subrange(0, i as int) == "marker"@),
            is_map || is_marker,
            rest == name@.subrange(i + 1, n as int),
            first_dash_index(rest) == j - i - 1,
            seg == name@.subrange(i + 1, j as int),
            seg == rest.subrange(0, j - i - 1),
            j > i + 1,
            val as nat == digits_val(name@.subrange(i + 1, k as int)),
            forall|t: int| i + 1 <= t < k ==> is_digit(#[trigger] name@[t]),
        decreases j - k,
    {
        let c = name.get_char(k);
        let cu = c as u32;
        if cu < 48 || cu > 57 {
            proof {
                assert(seg[k - i - 1] == name@[k as int]);
                assert(!is_digit(seg[k - i - 1]));
            }
            return FileType::Unrecognized;
        }
        let d = (cu - 48) as u64;
        proof {
            assert(seg.subrange(0, k - i - 1) =~= name@.subrange(i + 1, k as int));
            assert(seg.subrange(0, k - i) =~= name@.subrange(i + 1, k + 1));
            lemma_digits_val_step(seg, k - i - 1);
            assert(seg[k - i - 1] == name@[k as int]);
        }
        if val > (u64::MAX - d) / 10 {
            proof {
                lemma_digits_val_prefix_le(seg, k - i);
                assert(digits_val(seg) > u64::MAX);
            }
            return FileType::Unrecognized;
        }
        val = val * 10 + d;
        k = k + 1;
    }
    proof {
        assert(name@.subrange(i + 1, k as int) =~= seg);
        assert(all_digits(seg)) by {
            assert forall|t: int| 0 <= t < seg.len() implies is_digit(#[trigger] seg[t]) by {
                assert(seg[t] == name@[i + 1 + t]);
            }
        }
    }
    if is_map {
        FileType::MapFile(MapId::new(val))
    } else {
        FileType::MarkerFile(MarkerId::new(val))
    }
}

/// The digit character for `d`, as a one-character string.
fn digit_str(d: u64) -> (r: &'static str)
    requires
        d < 10,
    ensures
        r@ =~= seq![dec_digit_char(d as nat)],
{
    proof {
        reveal_strlit("0");
        reveal_strlit("1");
        reveal_strlit("2");
        reveal_strlit("3");
        reveal_strlit("4");
        reveal_strlit("5");
        reveal_strlit("6");
        reveal_strlit("7");
        reveal_strlit("8");
        reveal_strlit("9");
    }
    match d {
        0 => "0",
        1 => "1",
        2 => "2",
        3 => "3",
        4 => "4",
        5 => "5",
        6 => "6",
        7 => "7",
        8 => "8",
        _ => "9",
    }
}

/// Append the decimal rendering of `n` to `s`.
fn push_dec(s: &mut String, n: u64)
    ensures
        final(s)@ == old(s)@ + dec_str(n as nat),
    decreases n,
{
    if n < 10 {
        s.append(digit_str(n));
    } else {
        push_dec(s, n / 10);
        s.append(digit_str(n % 10));
        proof {
            assert(old(s)@ + dec_str((n / 10) as nat) + seq![dec_digit_char((n % 10) as nat)]
                =~= old(s)@ + dec_str(n as nat));
        }
    }
}

/// The record-file name for a map or marker id: `"map-<id>.json"` or
/// `"marker-<id>.json"`.
pub fn get_filename(filetype: FileType) -> (r: String)
    requires
        !(filetype is Unrecognized),
    ensures
        r@ == spec_filename(filetype),
{
    match filetype {
        FileType::MapFile(id) => {
            let mut s = String::from_str("map-");
            push_dec(&mut s, id.0);
            s.append(".json");
            proof {
                assert(("map-"@ + dec_str(id.0 as nat)) + ".json"@ =~= spec_filename(filetype));
            }
            s
        },
        FileType::MarkerFile(id) => {
            let mut s = String::from_str("marker-");
            push_dec(&mut s, id.0);
            s.append(".json");
            proof {
                assert(("marker-"@ + dec_str(id.0 as nat)) + ".json"@ =~= spec_filename(
                    filetype,
                ));
            }
            s
        },
        FileType::Unrecognized => {
            proof {
                assert(false);
            }
            String::new()
        },
    }
}

} // verus!
