//! Palettes: ordered colour tables that turn an iteration count into a
//! pixel, and the choice of one by name.

use vstd::prelude::*;

verus! {

/// An ordered table of red, green and blue bytes.
#[derive(Clone, Debug, PartialEq, Eq)]
pub struct ColorMap {
    pub colors: Vec<[u8; 3]>,
}

impl ColorMap {
    /// The table has at least one entry.
    pub open spec fn wf(&self) -> bool {
        self.colors@.len() > 0
    }

    /// The pixel for an iteration count: the table is walked in order and
    /// starts over after its last entry, so the count `k` reads entry
    /// `k mod len`; the pixel is opaque.
    pub open spec fn spec_color(&self, iteration: usize) -> Seq<u8> {
        let entry = self.colors@[iteration as int % self.colors@.len() as int];
        seq![entry@[0], entry@[1], entry@[2], 255u8]
    }

    /// Wraps a table, which must not be empty.
    pub fn new(colors: Vec<[u8; 3]>) -> (r: Option<ColorMap>)
        ensures
            colors@.len() == 0 <==> r is None,
            r matches Some(map) ==> map.colors == colors && map.wf(),
    {
        if colors.len() == 0 {
            None
        } else {
            Some(ColorMap { colors })
        }
    }
}

/// Resolves an iteration count to the red, green, blue and alpha bytes of a
/// pixel. Total: every count has a colour.
pub fn iteration_color(iteration: usize, map: &ColorMap) -> (rgba: [u8; 4])
    requires
        map.wf(),
    ensures
        rgba@ == map.spec_color(iteration),
{
    let entry = map.colors[iteration % map.colors.len()];
    let rgba = [entry[0], entry[1], entry[2], 255u8];
    rgba
}

/// The palette used when none is asked for, or when the one asked for is not
/// known.
pub const DEFAULT_SCHEME: &'static str = "inferno";

/// Some entry of `names` reads `wanted`.
pub open spec fn is_known(names: Seq<String>, wanted: Seq<char>) -> bool {
    exists|i: int| 0 <= i < names.len() && (#[trigger] names[i])@ == wanted
}

/// Entry `i` of `names` reads `wanted`, and no entry before it does.
pub open spec fn is_first_named(names: Seq<String>, wanted: Seq<char>, i: int) -> bool {
    &&& 0 <= i < names.len()
    &&& names[i]@ == wanted
    &&& forall|j: int| 0 <= j < i ==> (#[trigger] names[j])@ != wanted
}

/// `r` is the lookup of `wanted`: the first entry that reads it, or nothing
/// when no entry does.
pub open spec fn finds(names: Seq<String>, wanted: Seq<char>, r: Option<usize>) -> bool {
    match r {
        Some(i) => is_first_named(names, wanted, i as int),
        None => !is_known(names, wanted),
    }
}

/// `r` is the palette selected for `requested`: the one asked for where it is
/// known, else the default one; nothing only where the default is not known
/// either.
pub open spec fn selects(names: Seq<String>, requested: Option<String>, r: Option<usize>) -> bool {
    match requested {
        Some(name) if is_known(names, name@) => finds(names, name@, r),
        _ => finds(names, DEFAULT_SCHEME@, r),
    }
}

/// Looks `wanted` up among `names`.
pub fn find_scheme(names: &Vec<String>, wanted: &str) -> (r: Option<usize>)
    ensures
        finds(names@, wanted@, r),
{
    let owned = wanted.to_owned();
    let mut i: usize = 0;
    while i < names.len()
        invariant
            i <= names.len(),
            owned@ == wanted@,
            forall|j: int| 0 <= j < i ==> (#[trigger] names@[j])@ != wanted@,
        decreases names.len() - i,
    {
        if names[i] == owned {
            return Some(i);
        }
        i = i + 1;
    }
    None
}

/// Selects a palette by name: an unknown name is no error, it falls back to
/// the default palette, as does no name at all.
pub fn select_scheme(names: &Vec<String>, requested: &Option<String>) -> (r: Option<usize>)
    ensures
        selects(names@, *requested, r),
{
    match requested {
        Some(name) => {
            let found = find_scheme(names, name.as_str());
            if found.is_some() {
                return found;
            }
        },
        None => {},
    }
    find_scheme(names, DEFAULT_SCHEME)
}

} // verus!
