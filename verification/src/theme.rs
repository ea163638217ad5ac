//! Color overrides by layer name, used to recolor lottie compositions.

use vstd::prelude::*;

verus! {

/// Whether no two entries share a layer name.
pub open spec fn names_unique<C>(entries: Seq<(String, C)>) -> bool {
    forall|i: int, j: int|
        0 <= i < j < entries.len() ==> #[trigger] entries[i].0@ != #[trigger] entries[j].0@
}

/// The color overrides as a map from layer name to color.
pub open spec fn colors_map<C>(entries: Seq<(String, C)>) -> Map<Seq<char>, C> {
    Map::new(
        |name: Seq<char>| exists|i: int| 0 <= i < entries.len() && #[trigger] entries[i].0@ == name,
        |name: Seq<char>|
            entries[choose|i: int| 0 <= i < entries.len() && #[trigger] entries[i].0@ == name].1,
    )
}

/// The entries formed by pairing names and colors by position.
pub open spec fn zip_entries<C>(names: Seq<String>, colors: Seq<C>) -> Seq<(String, C)> {
    Seq::new(colors.len(), |i: int| (names[i], colors[i]))
}

/// Whether no name occurs twice.
pub open spec fn distinct_strings(names: Seq<String>) -> bool {
    forall|i: int, j: int| 0 <= i < j < names.len() ==> #[trigger] names[i]@ != #[trigger] names[j]@
}

/// Compares a string with a string slice.
///
/// Trusted: calls `<String as PartialEq<str>>::eq`, which std documents as
/// comparing the characters; the contract claims exactly that.
#[verifier::external_body]
fn string_eq(a: &String, b: &str) -> (equal: bool)
    ensures
        equal == (a@ == b@),
    no_unwind
{
    a == b
}

/// Sets the color of `name` in parallel name and color vectors, replacing
/// the color of an existing entry of that name.
fn set_color_split<C>(names: &mut Vec<String>, colors: &mut Vec<C>, name: &str, color: C)
    requires
        old(names)@.len() == old(colors)@.len(),
        distinct_strings(old(names)@),
    ensures
        final(names)@.len() == final(colors)@.len(),
        distinct_strings(final(names)@),
        colors_map(zip_entries(final(names)@, final(colors)@)) == colors_map(
            zip_entries(old(names)@, old(colors)@),
        ).insert(name@, color),
{
    let ghost before = zip_entries(names@, colors@);
    let mut i: usize = 0;
    let mut found = false;
    while i < names.len()
        invariant_except_break
            !found,
        invariant
            i <= names@.len(),
            names@.len() == colors@.len(),
            before == zip_entries(names@, colors@),
            distinct_strings(names@),
            forall|j: int| 0 <= j < i ==> #[trigger] names@[j]@ != name@,
        ensures
            i <= names@.len(),
            names@.len() == colors@.len(),
            before == zip_entries(names@, colors@),
            found ==> i < names@.len() && names@[i as int]@ == name@,
            !found ==> forall|j: int| 0 <= j < names@.len() ==> #[trigger] names@[j]@ != name@,
        decreases names@.len() - i,
    {
        if string_eq(&names[i], name) {
            found = true;
            break;
        }
        i = i + 1;
    }
    if found {
        colors.set(i, color);
        proof {
            let after = zip_entries(names@, colors@);
            assert(after[i as int].0@ == name@);
            assert(after =~= before.update(i as int, (before[i as int].0, color)));
            assert forall|n: Seq<char>| #[trigger]
                colors_map(after).contains_key(n) == colors_map(before).insert(
                    name@,
                    color,
                ).contains_key(n) by {
                if colors_map(after).contains_key(n) {
                    let k = choose|k: int| 0 <= k < after.len() && #[trigger] after[k].0@ == n;
                    assert(before[k].0@ == n);
                }
                if colors_map(before).contains_key(n) {
                    let k = choose|k: int| 0 <= k < before.len() && #[trigger] before[k].0@ == n;
                    assert(after[k].0@ == n);
                }
            }
            assert forall|n: Seq<char>| #[trigger]
                colors_map(after).contains_key(n) implies colors_map(after)[n] == colors_map(
                before,
            ).insert(name@, color)[n] by {
                let k = choose|k: int| 0 <= k < after.len() && #[trigger] after[k].0@ == n;
                assert(after[k].0 == names@[k]);
                if n != name@ {
                    let kb = choose|k: int| 0 <= k < before.len() && #[trigger] before[k].0@ == n;
                    assert(after[kb].0@ == n);
                    assert(after[kb].0 == names@[kb]);
                    assert(kb == k);
                } else {
                    assert(after[i as int].0 == names@[i as int]);
                    assert(k == i);
                }
            }
            assert(colors_map(after) =~= colors_map(before).insert(name@, color));
        }
    } else {
        names.push(name.to_string());
        colors.push(color);
        proof {
            let after = zip_entries(names@, colors@);
            let n0 = before.len() as int;
            assert(after[n0].0@ == name@);
            assert forall|j: int| 0 <= j < n0 implies #[trigger] after[j] == before[j] by {}
            assert forall|n: Seq<char>| #[trigger]
                colors_map(after).contains_key(n) == colors_map(before).insert(
                    name@,
                    color,
                ).contains_key(n) by {
                if colors_map(after).contains_key(n) {
                    let k = choose|k: int| 0 <= k < after.len() && #[trigger] after[k].0@ == n;
                    if k != n0 {
                        assert(before[k].0@ == n);
                    }
                }
                if colors_map(before).contains_key(n) {
                    let k = choose|k: int| 0 <= k < before.len() && #[trigger] before[k].0@ == n;
                    assert(after[k].0@ == n);
                }
            }
            assert forall|n: Seq<char>| #[trigger]
                colors_map(after).contains_key(n) implies colors_map(after)[n] == colors_map(
                before,
            ).insert(name@, color)[n] by {
                let k = choose|k: int| 0 <= k < after.len() && #[trigger] after[k].0@ == n;
                assert(after[k].0 == names@[k]);
                if n != name@ {
                    let kb = choose|k: int| 0 <= k < before.len() && #[trigger] before[k].0@ == n;
                    assert(after[kb].0@ == n);
                    assert(after[kb].0 == names@[kb]);
                    assert(kb == k);
                } else {
                    assert(names@[n0]@ == name@);
                    assert(k == n0);
                }
            }
            assert(colors_map(after) =~= colors_map(before).insert(name@, color));
        }
    }
}

/// Replacing the color at a position replaces the color of that position's
/// name.
proof fn lemma_update_color<C>(e: Seq<(String, C)>, i: int, c: C)
    requires
        0 <= i < e.len(),
        names_unique(e),
    ensures
        colors_map(e.update(i, (e[i].0, c))) == colors_map(e).insert(e[i].0@, c),
        names_unique(e.update(i, (e[i].0, c))),
{
    let after = e.update(i, (e[i].0, c));
    assert forall|n: Seq<char>| #[trigger]
        colors_map(after).contains_key(n) == colors_map(e).insert(e[i].0@, c).contains_key(n) by {
        if colors_map(after).contains_key(n) {
            let k = choose|k: int| 0 <= k < after.len() && #[trigger] after[k].0@ == n;
            assert(e[k].0@ == n);
        }
        if colors_map(e).contains_key(n) {
            let k = choose|k: int| 0 <= k < e.len() && #[trigger] e[k].0@ == n;
            assert(after[k].0@ == n);
        }
    }
    assert forall|n: Seq<char>| #[trigger]
        colors_map(after).contains_key(n) implies colors_map(after)[n] == colors_map(e).insert(
        e[i].0@,
        c,
    )[n] by {
        let k = choose|k: int| 0 <= k < after.len() && #[trigger] after[k].0@ == n;
        if n != e[i].0@ {
            let kb = choose|k: int| 0 <= k < e.len() && #[trigger] e[k].0@ == n;
            assert(after[kb].0@ == n);
            assert(kb == k);
        } else {
            assert(after[i].0@ == n);
            assert(k == i);
        }
    }
    assert(colors_map(after) =~= colors_map(e).insert(e[i].0@, c));
}

/// Replacing a color in the color vector replaces it in the paired entries.
proof fn lemma_zip_update<C>(names: Seq<String>, colors: Seq<C>, i: int, c: C)
    requires
        0 <= i < colors.len(),
        names.len() == colors.len(),
    ensures
        zip_entries(names, colors.update(i, c)) == zip_entries(names, colors).update(
            i,
            (zip_entries(names, colors)[i].0, c),
        ),
{
    assert(zip_entries(names, colors.update(i, c)) =~= zip_entries(names, colors).update(
        i,
        (zip_entries(names, colors)[i].0, c),
    ));
}

/// Color overrides by layer name.
///
/// Add this to a lottie to enable runtime color editing: the color of every
/// fill and stroke of a layer named here is replaced by the given color.
/// `C` is the color type.
pub struct Theme<C> {
    /// The layer names, by position.
    names: Vec<String>,
    /// The colors, by position.
    colors: Vec<C>,
}

impl<C> Theme<C> {
    #[verifier::type_invariant]
    spec fn layer_names_unique(self) -> bool {
        &&& self.names@.len() == self.colors@.len()
        &&& distinct_strings(self.names@)
    }

    /// The overrides, by layer name.
    pub closed spec fn view(&self) -> Map<Seq<char>, C> {
        colors_map(zip_entries(self.names@, self.colors@))
    }

    /// A theme without overrides.
    pub fn new() -> (t: Self)
        ensures
            t.view() == Map::<Seq<char>, C>::empty(),
    {
        let t = Theme { names: Vec::new(), colors: Vec::new() };
        assert(t.view() =~= Map::<Seq<char>, C>::empty());
        t
    }

    /// Swap a color with the given layer name.
    pub fn add(self, layer_name: &str, color: C) -> (t: Self)
        ensures
            t.view() == self.view().insert(layer_name@, color),
    {
        proof {
            use_type_invariant(&self);
        }
        let Theme { mut names, mut colors } = self;
        set_color_split(&mut names, &mut colors, layer_name, color);
        Theme { names, colors }
    }

    /// Swap a color for the selected layer name. This will overwrite the
    /// previous value.
    pub fn edit(&mut self, layer_name: &str, color: C) -> (t: &mut Self)
        ensures
            t.view() == old(self).view().insert(layer_name@, color),
            *final(self) == *final(t),
    {
        let mut taken = Theme::new();
        std::mem::swap(&mut taken, self);
        proof {
            use_type_invariant(&taken);
        }
        let Theme { mut names, mut colors } = taken;
        set_color_split(&mut names, &mut colors, layer_name, color);
        *self = Theme { names, colors };
        self
    }

    /// The color for the given layer name, if it has one.
    pub fn get(&self, layer_name: &str) -> (c: Option<&C>)
        ensures
            match c {
                Some(c) => self.view().contains_key(layer_name@) && *c == self.view()[layer_name@],
                None => !self.view().contains_key(layer_name@),
            },
    {
        proof {
            use_type_invariant(self);
        }
        let ghost e = zip_entries(self.names@, self.colors@);
        let mut i: usize = 0;
        while i < self.names.len()
            invariant
                i <= self.names@.len(),
                self.names@.len() == self.colors@.len(),
                e == zip_entries(self.names@, self.colors@),
                distinct_strings(self.names@),
                forall|j: int| 0 <= j < i ==> #[trigger] self.names@[j]@ != layer_name@,
            decreases self.names@.len() - i,
        {
            if string_eq(&self.names[i], layer_name) {
                proof {
                    assert(e[i as int].0@ == layer_name@);
                    let k = choose|k: int| 0 <= k < e.len() && #[trigger] e[k].0@ == layer_name@;
                    assert(e[k].0 == self.names@[k]);
                    assert(k == i as int);
                }
                return Some(&self.colors[i]);
            }
            i = i + 1;
        }
        proof {
            assert forall|j: int| 0 <= j < e.len() implies #[trigger] e[j].0@ != layer_name@ by {
                assert(e[j].0 == self.names@[j]);
            }
        }
        None
    }

    /// A mutable reference to the color for the given layer name, if it has
    /// one. The layer names stay as they are.
    pub fn get_mut(&mut self, layer_name: &str) -> (c: Option<&mut C>)
        ensures
            c is Some == old(self).view().contains_key(layer_name@),
            c matches Some(r) ==> *r == old(self).view()[layer_name@] && final(self).view()
                == old(self).view().insert(layer_name@, *final(r)),
            c is None ==> *final(self) == *old(self),
        no_unwind
    {
        proof {
            use_type_invariant(&*self);
        }
        let ghost e = zip_entries(self.names@, self.colors@);
        let mut i: usize = 0;
        let mut found = false;
        while i < self.names.len()
            invariant_except_break
                !found,
            invariant
                i <= self.names@.len(),
                self.names@.len() == self.colors@.len(),
                e == zip_entries(self.names@, self.colors@),
                distinct_strings(self.names@),
                forall|j: int| 0 <= j < i ==> #[trigger] self.names@[j]@ != layer_name@,
            ensures
                i <= self.names@.len(),
                found ==> i < self.names@.len() && self.names@[i as int]@ == layer_name@,
                !found ==> forall|j: int| 0 <= j < self.names@.len() ==> #[trigger] self.names@[j]@ != layer_name@,
            decreases self.names@.len() - i,
        {
            if string_eq(&self.names[i], layer_name) {
                found = true;
                break;
            }
            i = i + 1;
        }
        if found {
            proof {
                assert(e[i as int].0@ == layer_name@);
                let k = choose|k: int| 0 <= k < e.len() && #[trigger] e[k].0@ == layer_name@;
                assert(e[k].0 == self.names@[k]);
                assert(e[i as int].0 == self.names@[i as int]);
                assert(k == i as int);
            }
            let ghost names_v = self.names@;
            let ghost colors_v = self.colors@;
            let r = &mut self.colors[i];
            proof {
                assert forall|a: int, b: int| 0 <= a < b < e.len() implies #[trigger] e[a].0@
                    != #[trigger] e[b].0@ by {
                    assert(e[a].0 == names_v[a] && e[b].0 == names_v[b]);
                }
                lemma_update_color(e, i as int, *final(r));
                lemma_zip_update(names_v, colors_v, i as int, *final(r));
            }
            Some(r)
        } else {
            proof {
                assert forall|j: int| 0 <= j < e.len() implies #[trigger] e[j].0@ != layer_name@ by {
                    assert(e[j].0 == self.names@[j]);
                }
            }
            None
        }
    }
}

/// A color set for a layer is the color the theme then gives for that layer,
/// overwriting any earlier one, and every other layer keeps its override (or
/// its lack of one).
pub proof fn lemma_set_color_then_get<C>(t: Theme<C>, layer_name: Seq<char>, color: C, other: Seq<char>)
    ensures
        t.view().insert(layer_name, color).contains_key(layer_name),
        t.view().insert(layer_name, color)[layer_name] == color,
        other != layer_name ==> t.view().insert(layer_name, color).contains_key(other)
            == t.view().contains_key(other),
        other != layer_name && t.view().contains_key(other) ==> t.view().insert(layer_name, color)[other]
            == t.view()[other],
{
}

/// A layer as recoloring sees it: its name, and whether its content is
/// shapes (the only content whose fills and strokes are recolored).
pub struct LayerOutline {
    pub name: String,
    pub has_shapes: bool,
}

impl<C> Theme<C> {
    /// The color each layer is recolored with: a layer whose content is
    /// shapes and whose name the theme overrides gets the override; any
    /// other layer keeps its colors (`None`).
    pub fn recolor_targets<'a>(&'a self, layers: &Vec<LayerOutline>) -> (targets: Vec<Option<&'a C>>)
        ensures
            targets@.len() == layers@.len(),
            forall|i: int|
                0 <= i < layers@.len() ==> match #[trigger] targets@[i] {
                    Some(c) => layers@[i].has_shapes && self.view().contains_key(layers@[i].name@)
                        && *c == self.view()[layers@[i].name@],
                    None => !(layers@[i].has_shapes && self.view().contains_key(layers@[i].name@)),
                },
    {
        let mut targets: Vec<Option<&'a C>> = Vec::new();
        let mut i: usize = 0;
        while i < layers.len()
            invariant
                i <= layers@.len(),
                targets@.len() == i,
                forall|j: int|
                    0 <= j < i ==> match #[trigger] targets@[j] {
                        Some(c) => layers@[j].has_shapes && self.view().contains_key(layers@[j].name@)
                            && *c == self.view()[layers@[j].name@],
                        None => !(layers@[j].has_shapes && self.view().contains_key(
                            layers@[j].name@,
                        )),
                    },
            decreases layers@.len() - i,
        {
            let layer = &layers[i];
            let target = if layer.has_shapes {
                self.get(layer.name.as_str())
            } else {
                None
            };
            targets.push(target);
            i = i + 1;
        }
        targets
    }
}

impl<C> Default for Theme<C> {
    fn default() -> (t: Self)
        ensures
            t.view() == Map::<Seq<char>, C>::empty(),
    {
        Theme::new()
    }
}

/// Color overrides by layer name for a vector asset: the color of every fill
/// and stroke of a layer named here is replaced by the given color.
pub struct ColorPaletteSwap<C> {
    /// The layer names, by position.
    names: Vec<String>,
    /// The colors, by position.
    colors: Vec<C>,
}

impl<C> ColorPaletteSwap<C> {
    #[verifier::type_invariant]
    spec fn layer_names_unique(self) -> bool {
        &&& self.names@.len() == self.colors@.len()
        &&& distinct_strings(self.names@)
    }

    /// The overrides, by layer name.
    pub closed spec fn view(&self) -> Map<Seq<char>, C> {
        colors_map(zip_entries(self.names@, self.colors@))
    }

    /// A swap without overrides.
    pub fn empty() -> (t: Self)
        ensures
            t.view() == Map::<Seq<char>, C>::empty(),
    {
        let t = ColorPaletteSwap { names: Vec::new(), colors: Vec::new() };
        assert(t.view() =~= Map::<Seq<char>, C>::empty());
        t
    }

    /// Swap a color with the given layer name.
    pub fn add(self, layer_name: &str, color: C) -> (t: Self)
        ensures
            t.view() == self.view().insert(layer_name@, color),
    {
        proof {
            use_type_invariant(&self);
        }
        let ColorPaletteSwap { mut names, mut colors } = self;
        set_color_split(&mut names, &mut colors, layer_name, color);
        ColorPaletteSwap { names, colors }
    }

    /// Swap a color for the selected layer name. This will overwrite the
    /// previous value.
    pub fn edit(&mut self, layer_name: &str, color: C) -> (t: &mut Self)
        ensures
            t.view() == old(self).view().insert(layer_name@, color),
            *final(self) == *final(t),
    {
        let mut taken = ColorPaletteSwap::empty();
        std::mem::swap(&mut taken, self);
        proof {
            use_type_invariant(&taken);
        }
        let ColorPaletteSwap { mut names, mut colors } = taken;
        set_color_split(&mut names, &mut colors, layer_name, color);
        *self = ColorPaletteSwap { names, colors };
        self
    }
}

} // verus!
