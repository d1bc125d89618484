//! Settings and how they are resolved: what the command line says comes
//! first, then the chosen profile, then the configuration file, then the
//! constants of the animation kind.
//!
//! The library moves numbers and never computes with them, so the type `N`
//! of a number that the user wrote is the caller's. The numbers that the
//! library itself brings are whole thousandths.

use vstd::prelude::*;
use vstd::string::*;
use crate::color::{palette_of, parse_colors, texts_of};
use crate::particle::Scene;
use crate::text::same_text;
use crate::types::{AnimType, Rgb, Shape};

verus! {

/// A number of the settings: one that the user wrote, or one of the
/// library's own, in thousandths.
#[derive(Debug, PartialEq)]
pub enum Number<N> {
    Given(N),
    Thousandths(u32),
}

impl<N: Copy> Clone for Number<N> {
    fn clone(&self) -> (r: Number<N>)
        ensures
            r == *self,
    {
        *self
    }
}

impl<N: Copy> Copy for Number<N> {

}

/// The settings of a profile. What is `None` is left to the next layer.
pub struct ProfileConfig<N> {
    pub anim_type: Option<String>,
    pub shape: Option<String>,
    pub particles: Option<usize>,
    pub duration: Option<Number<N>>,
    pub gravity: Option<Number<N>>,
    pub drag: Option<Number<N>>,
    pub speed_min: Option<Number<N>>,
    pub speed_max: Option<Number<N>>,
    pub spread: Option<Number<N>>,
    pub fade: Option<Number<N>>,
    pub colors: Option<Vec<String>>,
}

/// The settings of the configuration file, and the profiles it defines, in
/// the order in which they are listed.
pub struct FileConfig<N> {
    pub anim_type: Option<String>,
    pub shape: Option<String>,
    pub particles: Option<usize>,
    pub duration: Option<N>,
    pub gravity: Option<N>,
    pub drag: Option<N>,
    pub speed_min: Option<N>,
    pub speed_max: Option<N>,
    pub spread: Option<N>,
    pub fade: Option<N>,
    pub colors: Option<Vec<String>>,
    pub profiles: Vec<(String, ProfileConfig<N>)>,
}

/// The settings of the command line.
pub struct Cli<N> {
    /// The name of a profile or of an animation kind.
    pub profile: Option<String>,
    pub anim_type: Option<String>,
    pub shape: Option<String>,
    pub particles: Option<usize>,
    pub duration: Option<N>,
    pub gravity: Option<N>,
    pub drag: Option<N>,
    pub speed_min: Option<N>,
    pub speed_max: Option<N>,
    pub spread: Option<N>,
    pub fade: Option<N>,
    pub colors: Option<Vec<String>>,
    /// Whether a default configuration file is to be written.
    pub init: bool,
}

/// The resolved settings of one run.
pub struct Settings<N> {
    pub anim_type: AnimType,
    pub shape: Shape,
    pub particles: usize,
    pub duration: Number<N>,
    pub gravity: Number<N>,
    pub drag: Number<N>,
    pub speed_min: Number<N>,
    pub speed_max: Number<N>,
    pub spread: Number<N>,
    pub fade: Number<N>,
    pub colors: Vec<Rgb>,
}

/// The name given on the command line is neither a profile nor an animation
/// kind. `profiles` lists the profiles that could have been named.
pub struct UnknownName {
    pub name: String,
    pub profiles: Vec<String>,
}

/// A profile as plain values.
pub ghost struct ProfileView<N> {
    pub anim_type: Option<Seq<char>>,
    pub shape: Option<Seq<char>>,
    pub particles: Option<usize>,
    pub duration: Option<Number<N>>,
    pub gravity: Option<Number<N>>,
    pub drag: Option<Number<N>>,
    pub speed_min: Option<Number<N>>,
    pub speed_max: Option<Number<N>>,
    pub spread: Option<Number<N>>,
    pub fade: Option<Number<N>>,
    pub colors: Option<Seq<Seq<char>>>,
}

/// Resolved settings as plain values.
pub ghost struct SettingsView<N> {
    pub anim_type: AnimType,
    pub shape: Shape,
    pub particles: usize,
    pub duration: Number<N>,
    pub gravity: Number<N>,
    pub drag: Number<N>,
    pub speed_min: Number<N>,
    pub speed_max: Number<N>,
    pub spread: Number<N>,
    pub fade: Number<N>,
    pub colors: Seq<Rgb>,
}

/// The text of an optional string.
pub open spec fn text_of(s: Option<String>) -> Option<Seq<char>> {
    match s {
        Some(s) => Some(s@),
        None => None,
    }
}

/// The texts of an optional list of strings.
pub open spec fn list_of(list: Option<Vec<String>>) -> Option<Seq<Seq<char>>> {
    match list {
        Some(l) => Some(texts_of(l@)),
        None => None,
    }
}

impl<N> ProfileView<N> {
    /// The profile that settles nothing.
    pub open spec fn empty() -> ProfileView<N> {
        ProfileView {
            anim_type: None,
            shape: None,
            particles: None,
            duration: None,
            gravity: None,
            drag: None,
            speed_min: None,
            speed_max: None,
            spread: None,
            fade: None,
            colors: None,
        }
    }
}

impl<N> View for ProfileConfig<N> {
    type V = ProfileView<N>;

    open spec fn view(&self) -> ProfileView<N> {
        ProfileView {
            anim_type: text_of(self.anim_type),
            shape: text_of(self.shape),
            particles: self.particles,
            duration: self.duration,
            gravity: self.gravity,
            drag: self.drag,
            speed_min: self.speed_min,
            speed_max: self.speed_max,
            spread: self.spread,
            fade: self.fade,
            colors: list_of(self.colors),
        }
    }
}

impl<N> View for Settings<N> {
    type V = SettingsView<N>;

    open spec fn view(&self) -> SettingsView<N> {
        SettingsView {
            anim_type: self.anim_type,
            shape: self.shape,
            particles: self.particles,
            duration: self.duration,
            gravity: self.gravity,
            drag: self.drag,
            speed_min: self.speed_min,
            speed_max: self.speed_max,
            spread: self.spread,
            fade: self.fade,
            colors: self.colors@,
        }
    }
}

impl<N> ProfileConfig<N> {
    /// The profile that settles nothing.
    pub fn empty() -> (p: ProfileConfig<N>)
        ensures
            p@ == ProfileView::<N>::empty(),
    {
        ProfileConfig {
            anim_type: None,
            shape: None,
            particles: None,
            duration: None,
            gravity: None,
            drag: None,
            speed_min: None,
            speed_max: None,
            spread: None,
            fade: None,
            colors: None,
        }
    }
}

impl<N> Default for ProfileConfig<N> {
    fn default() -> (p: ProfileConfig<N>)
        ensures
            p@ == ProfileView::<N>::empty(),
    {
        ProfileConfig::empty()
    }
}

/// A list of named profiles as plain values.
pub open spec fn table_of<N>(profiles: Seq<(String, ProfileConfig<N>)>) -> Seq<
    (Seq<char>, ProfileView<N>),
> {
    Seq::new(profiles.len(), |i: int| (profiles[i].0@, profiles[i].1@))
}

/// The names of a list of named profiles.
pub open spec fn names_of<N>(table: Seq<(Seq<char>, ProfileView<N>)>) -> Seq<Seq<char>> {
    Seq::new(table.len(), |i: int| table[i].0)
}

/// The first profile of a list that goes by `name`.
pub open spec fn lookup<N>(table: Seq<(Seq<char>, ProfileView<N>)>, name: Seq<char>) -> Option<
    ProfileView<N>,
>
    decreases table.len(),
{
    if table.len() == 0 {
        None
    } else if table[0].0 == name {
        Some(table[0].1)
    } else {
        lookup(table.drop_first(), name)
    }
}

/// Finds the first profile of a list that goes by `name`.
pub fn find_profile<'a, N>(table: &'a Vec<(String, ProfileConfig<N>)>, name: &str) -> (r: Option<
    &'a ProfileConfig<N>,
>)
    ensures
        match r {
            Some(p) => lookup(table_of(table@), name@) == Some(p@),
            None => lookup(table_of(table@), name@) is None,
        },
{
    let ghost full = table_of(table@);
    let mut i: usize = 0;
    proof {
        assert(full.skip(0) =~= full);
    }
    while i < table.len()
        invariant
            full == table_of(table@),
            i <= table@.len(),
            lookup(full, name@) == lookup(full.skip(i as int), name@),
        decreases table@.len() - i,
    {
        proof {
            assert(full.skip(i as int)[0] == full[i as int]);
            assert(full.skip(i as int).drop_first() =~= full.skip(i + 1));
        }
        if same_text(table[i].0.as_str(), name) {
            return Some(&table[i].1);
        }
        i += 1;
    }
    None
}

/// One of the library's own numbers, where there is one.
pub open spec fn thousandths<N>(value: Option<u32>) -> Option<Number<N>> {
    match value {
        Some(v) => Some(Number::Thousandths(v)),
        None => None,
    }
}

/// The texts of a list of string slices.
pub open spec fn slices_of(list: Seq<&'static str>) -> Seq<Seq<char>> {
    Seq::new(list.len(), |i: int| list[i]@)
}

/// A built-in profile: an animation kind, a particle count and a palette,
/// and where it sets them a shape, a duration and a gravity.
pub open spec fn builtin_view<N>(
    kind: Seq<char>,
    shape: Option<Seq<char>>,
    particles: usize,
    duration: Option<u32>,
    gravity: Option<u32>,
    colors: Seq<Seq<char>>,
) -> ProfileView<N> {
    ProfileView {
        anim_type: Some(kind),
        shape,
        particles: Some(particles),
        duration: thousandths(duration),
        gravity: thousandths(gravity),
        drag: None,
        speed_min: None,
        speed_max: None,
        spread: None,
        fade: None,
        colors: Some(colors),
    }
}

/// The names of the built-in profiles.
pub open spec fn builtin_names() -> Seq<Seq<char>> {
    seq!["lava"@, "matrix"@, "sakura"@, "aurora"@, "gold"@, "balloon"@]
}

/// The built-in profiles, by name.
pub open spec fn builtin_table<N>() -> Seq<(Seq<char>, ProfileView<N>)> {
    seq![
        (
            "lava"@,
            builtin_view(
                "pop"@,
                None,
                1000,
                Some(2000u32),
                Some(500_000u32),
                seq!["#ff2200"@, "#ff6600"@, "#ffaa00"@, "#ffdd00"@, "#ff4400"@],
            ),
        ),
        (
            "matrix"@,
            builtin_view(
                "rain"@,
                None,
                600,
                Some(5000u32),
                None,
                seq!["#00ff00"@, "#00cc00"@, "#00ff44"@, "#33ff33"@],
            ),
        ),
        (
            "sakura"@,
            builtin_view(
                "snow"@,
                None,
                250,
                Some(8000u32),
                Some(30_000u32),
                seq!["#ffb7c5"@, "#ff69b4"@, "#ffc0cb"@, "#ffffff"@, "#ffd1dc"@],
            ),
        ),
        (
            "aurora"@,
            builtin_view(
                "sparkle"@,
                None,
                150,
                Some(5000u32),
                None,
                seq!["#00ff87"@, "#00d4ff"@, "#a855f7"@, "#ff2d87"@, "#22d3ee"@],
            ),
        ),
        (
            "gold"@,
            builtin_view(
                "cannon"@,
                Some("circle"@),
                1200,
                None,
                None,
                seq!["#ffd700"@, "#ffb800"@, "#fff1a8"@, "#daa520"@, "#ffe066"@],
            ),
        ),
        (
            "balloon"@,
            builtin_view(
                "drop"@,
                None,
                1200,
                Some(3500u32),
                None,
                seq!["#ff2d87"@, "#2d8cff"@, "#2dff6d"@, "#ffd02d"@, "#a12dff"@, "#ff6b2d"@],
            ),
        ),
    ]
}

fn owned(list: Vec<&'static str>) -> (r: Vec<String>)
    ensures
        texts_of(r@) == slices_of(list@),
{
    let mut out: Vec<String> = Vec::new();
    let mut i: usize = 0;
    while i < list.len()
        invariant
            i <= list@.len(),
            out@.len() == i,
            forall|j: int| 0 <= j < i ==> out@[j]@ == list@[j]@,
        decreases list@.len() - i,
    {
        out.push(list[i].to_owned());
        i += 1;
    }
    proof {
        assert(texts_of(out@) =~= slices_of(list@));
    }
    out
}

fn number<N>(value: Option<u32>) -> (r: Option<Number<N>>)
    ensures
        r == thousandths::<N>(value),
{
    match value {
        Some(v) => Some(Number::Thousandths(v)),
        None => None,
    }
}

fn builtin<N>(
    name: &'static str,
    kind: &'static str,
    shape: Option<&'static str>,
    particles: usize,
    duration: Option<u32>,
    gravity: Option<u32>,
    colors: Vec<&'static str>,
) -> (r: (String, ProfileConfig<N>))
    ensures
        r.0@ == name@,
        r.1@ == builtin_view::<N>(
            kind@,
            match shape {
                Some(s) => Some(s@),
                None => None,
            },
            particles,
            duration,
            gravity,
            slices_of(colors@),
        ),
{
    let shape = match shape {
        Some(s) => Some(s.to_owned()),
        None => None,
    };
    (
        name.to_owned(),
        ProfileConfig {
            anim_type: Some(kind.to_owned()),
            shape,
            particles: Some(particles),
            duration: number(duration),
            gravity: number(gravity),
            drag: None,
            speed_min: None,
            speed_max: None,
            spread: None,
            fade: None,
            colors: Some(owned(colors)),
        },
    )
}

/// The built-in profiles, by name.
pub fn builtin_profiles<N>() -> (r: Vec<(String, ProfileConfig<N>)>)
    ensures
        table_of(r@) == builtin_table::<N>(),
{
    let lava = vec!["#ff2200", "#ff6600", "#ffaa00", "#ffdd00", "#ff4400"];
    let matrix = vec!["#00ff00", "#00cc00", "#00ff44", "#33ff33"];
    let sakura = vec!["#ffb7c5", "#ff69b4", "#ffc0cb", "#ffffff", "#ffd1dc"];
    let aurora = vec!["#00ff87", "#00d4ff", "#a855f7", "#ff2d87", "#22d3ee"];
    let gold = vec!["#ffd700", "#ffb800", "#fff1a8", "#daa520", "#ffe066"];
    let balloon = vec!["#ff2d87", "#2d8cff", "#2dff6d", "#ffd02d", "#a12dff", "#ff6b2d"];
    proof {
        assert(slices_of(lava@) =~= seq![
            "#ff2200"@,
            "#ff6600"@,
            "#ffaa00"@,
            "#ffdd00"@,
            "#ff4400"@,
        ]);
        assert(slices_of(matrix@) =~= seq!["#00ff00"@, "#00cc00"@, "#00ff44"@, "#33ff33"@]);
        assert(slices_of(sakura@) =~= seq![
            "#ffb7c5"@,
            "#ff69b4"@,
            "#ffc0cb"@,
            "#ffffff"@,
            "#ffd1dc"@,
        ]);
        assert(slices_of(aurora@) =~= seq![
            "#00ff87"@,
            "#00d4ff"@,
            "#a855f7"@,
            "#ff2d87"@,
            "#22d3ee"@,
        ]);
        assert(slices_of(gold@) =~= seq![
            "#ffd700"@,
            "#ffb800"@,
            "#fff1a8"@,
            "#daa520"@,
            "#ffe066"@,
        ]);
        assert(slices_of(balloon@) =~= seq![
            "#ff2d87"@,
            "#2d8cff"@,
            "#2dff6d"@,
            "#ffd02d"@,
            "#a12dff"@,
            "#ff6b2d"@,
        ]);
    }
    let r = vec![
        builtin("lava", "pop", None, 1000, Some(2000), Some(500_000), lava),
        builtin("matrix", "rain", None, 600, Some(5000), None, matrix),
        builtin("sakura", "snow", None, 250, Some(8000), Some(30_000), sakura),
        builtin("aurora", "sparkle", None, 150, Some(5000), None, aurora),
        builtin("gold", "cannon", Some("circle"), 1200, None, None, gold),
        builtin("balloon", "drop", None, 1200, Some(3500), None, balloon),
    ];
    proof {
        assert(table_of(r@) =~= builtin_table::<N>());
    }
    r
}

/// The animation kind that an optional text names.
pub open spec fn kind_named(text: Option<Seq<char>>) -> Option<AnimType> {
    match text {
        Some(t) => AnimType::parse(t),
        None => None,
    }
}

/// The shape that an optional text names.
pub open spec fn shape_named(text: Option<Seq<char>>) -> Option<Shape> {
    match text {
        Some(t) => Shape::parse(t),
        None => None,
    }
}

/// The first of two optional values that is there.
pub open spec fn or_else<T>(first: Option<T>, second: Option<T>) -> Option<T> {
    if first is Some {
        first
    } else {
        second
    }
}

/// The profile that the command line chooses: none is named, or the name is
/// that of a profile of the file, else of a built-in profile, else of an
/// animation kind, which stands for the profile that settles nothing. Any
/// other name chooses no profile.
pub open spec fn chosen_profile<N>(
    name: Option<Seq<char>>,
    file: Seq<(Seq<char>, ProfileView<N>)>,
) -> Option<ProfileView<N>> {
    match name {
        None => Some(ProfileView::empty()),
        Some(n) => if lookup(file, n) is Some {
            lookup(file, n)
        } else if lookup(builtin_table::<N>(), n) is Some {
            lookup(builtin_table::<N>(), n)
        } else if AnimType::parse(n) is Some {
            Some(ProfileView::empty())
        } else {
            None
        },
    }
}

/// The animation kind: the first that is validly named by the command
/// line's type, the profile, the file and the command line's profile name,
/// and confetti where none is.
pub open spec fn settled_kind(
    cli: Option<Seq<char>>,
    profile: Option<Seq<char>>,
    file: Option<Seq<char>>,
    name: Option<Seq<char>>,
) -> AnimType {
    match or_else(
        or_else(or_else(kind_named(cli), kind_named(profile)), kind_named(file)),
        kind_named(name),
    ) {
        Some(k) => k,
        None => AnimType::Confetti,
    }
}

/// The shape: the first that is validly named by the command line, the
/// profile and the file, and the shape of the kind where none is.
pub open spec fn settled_shape(
    cli: Option<Seq<char>>,
    profile: Option<Seq<char>>,
    file: Option<Seq<char>>,
    kind: AnimType,
) -> Shape {
    match or_else(or_else(shape_named(cli), shape_named(profile)), shape_named(file)) {
        Some(s) => s,
        None => kind.default_shape_spec(),
    }
}

/// A number: that of the command line, else of the profile, else of the
/// file, else the constant of the kind.
pub open spec fn pick<N>(
    cli: Option<N>,
    profile: Option<Number<N>>,
    file: Option<N>,
    fallback: u32,
) -> Number<N> {
    match (cli, profile, file) {
        (Some(n), _, _) => Number::Given(n),
        (None, Some(p), _) => p,
        (None, None, Some(n)) => Number::Given(n),
        (None, None, None) => Number::Thousandths(fallback),
    }
}

/// The particle count: that of the command line, else of the profile, else
/// of the file, else the constant of the kind.
pub open spec fn pick_count(
    cli: Option<usize>,
    profile: Option<usize>,
    file: Option<usize>,
    fallback: usize,
) -> usize {
    match or_else(or_else(cli, profile), file) {
        Some(n) => n,
        None => fallback,
    }
}

/// The palette: read from the colour list of the command line, else of the
/// profile, else of the file, and the palette of the kind where none of them
/// has a list.
pub open spec fn settled_colors(
    cli: Option<Seq<Seq<char>>>,
    profile: Option<Seq<Seq<char>>>,
    file: Option<Seq<Seq<char>>>,
    kind: AnimType,
) -> Seq<Rgb> {
    match or_else(or_else(cli, profile), file) {
        Some(list) => palette_of(list),
        None => kind.palette(),
    }
}

/// The settings that the command line, the chosen profile and the file
/// resolve to.
pub open spec fn settled<N>(
    cli: Cli<N>,
    profile: ProfileView<N>,
    file: FileConfig<N>,
) -> SettingsView<N> {
    let kind = settled_kind(
        text_of(cli.anim_type),
        profile.anim_type,
        text_of(file.anim_type),
        text_of(cli.profile),
    );
    let d = kind.defaults_spec();
    SettingsView {
        anim_type: kind,
        shape: settled_shape(text_of(cli.shape), profile.shape, text_of(file.shape), kind),
        particles: pick_count(cli.particles, profile.particles, file.particles, d.particles),
        duration: pick(cli.duration, profile.duration, file.duration, d.duration),
        gravity: pick(cli.gravity, profile.gravity, file.gravity, d.gravity),
        drag: pick(cli.drag, profile.drag, file.drag, d.drag),
        speed_min: pick(cli.speed_min, profile.speed_min, file.speed_min, d.speed_min),
        speed_max: pick(cli.speed_max, profile.speed_max, file.speed_max, d.speed_max),
        spread: pick(cli.spread, profile.spread, file.spread, d.spread),
        fade: pick(cli.fade, profile.fade, file.fade, d.fade),
        colors: settled_colors(
            list_of(cli.colors),
            profile.colors,
            list_of(file.colors),
            kind,
        ),
    }
}

/// A list of names with further names added at its end, each unless the
/// list holds it already.
pub open spec fn merged_names(names: Seq<Seq<char>>, more: Seq<Seq<char>>) -> Seq<Seq<char>>
    decreases more.len(),
{
    if more.len() == 0 {
        names
    } else {
        let rest = merged_names(names, more.drop_last());
        if rest.contains(more.last()) {
            rest
        } else {
            rest.push(more.last())
        }
    }
}

/// The names of the animation kinds.
pub open spec fn anim_type_names_spec() -> Seq<Seq<char>> {
    seq![
        AnimType::Confetti.name(),
        AnimType::Cannon.name(),
        AnimType::Pop.name(),
        AnimType::Fireworks.name(),
        AnimType::Snow.name(),
        AnimType::Rain.name(),
        AnimType::Sparkle.name(),
        AnimType::Drop.name(),
    ]
}

/// Parts put together with `sep` between each two of them.
pub open spec fn joined(parts: Seq<Seq<char>>, sep: Seq<char>) -> Seq<char>
    decreases parts.len(),
{
    if parts.len() == 0 {
        Seq::empty()
    } else if parts.len() == 1 {
        parts[0]
    } else {
        joined(parts.drop_last(), sep) + sep + parts.last()
    }
}

/// The text that lists the animation kinds and the profiles.
pub open spec fn help_text(profiles: Seq<Seq<char>>) -> Seq<char> {
    "Types: "@ + joined(anim_type_names_spec(), ", "@) + "\nProfiles: "@ + joined(
        profiles,
        ", "@,
    )
}

/// The names of the animation kinds.
pub fn anim_type_names() -> (r: Vec<String>)
    ensures
        texts_of(r@) == anim_type_names_spec(),
{
    let names = vec![
        "confetti",
        "cannon",
        "pop",
        "fireworks",
        "snow",
        "rain",
        "sparkle",
        "drop",
    ];
    proof {
        assert(slices_of(names@) =~= anim_type_names_spec());
    }
    owned(names)
}

/// The names of the built-in profiles.
pub fn builtin_profile_names() -> (r: Vec<String>)
    ensures
        texts_of(r@) == builtin_names(),
{
    let names = vec!["lava", "matrix", "sakura", "aurora", "gold", "balloon"];
    proof {
        assert(slices_of(names@) =~= builtin_names());
    }
    owned(names)
}

fn holds(names: &Vec<String>, name: &str) -> (r: bool)
    ensures
        r == texts_of(names@).contains(name@),
{
    let mut i: usize = 0;
    while i < names.len()
        invariant
            i <= names@.len(),
            forall|j: int| 0 <= j < i ==> texts_of(names@)[j] != name@,
        decreases names@.len() - i,
    {
        if same_text(names[i].as_str(), name) {
            proof {
                assert(texts_of(names@)[i as int] == name@);
            }
            return true;
        }
        i += 1;
    }
    false
}

/// The profiles that can be named: the built-in ones, then those of the file
/// that do not go by a name already listed.
pub fn profile_names<N>(profiles: &Vec<(String, ProfileConfig<N>)>) -> (r: Vec<String>)
    ensures
        texts_of(r@) == merged_names(builtin_names(), names_of(table_of(profiles@))),
{
    let ghost keys = names_of(table_of(profiles@));
    let mut names = builtin_profile_names();
    let mut i: usize = 0;
    while i < profiles.len()
        invariant
            keys == names_of(table_of(profiles@)),
            i <= profiles@.len(),
            texts_of(names@) == merged_names(builtin_names(), keys.take(i as int)),
        decreases profiles@.len() - i,
    {
        proof {
            assert(keys.take(i + 1).drop_last() =~= keys.take(i as int));
            assert(keys.take(i + 1).last() == profiles@[i as int].0@);
        }
        if !holds(&names, profiles[i].0.as_str()) {
            let ghost before = names@;
            names.push(profiles[i].0.clone());
            proof {
                assert(texts_of(names@) =~= texts_of(before).push(profiles@[i as int].0@));
            }
        }
        i += 1;
    }
    proof {
        assert(keys.take(profiles@.len() as int) =~= keys);
    }
    names
}

fn join(parts: &Vec<String>, sep: &str) -> (r: String)
    ensures
        r@ == joined(texts_of(parts@), sep@),
{
    let ghost texts = texts_of(parts@);
    let mut out = String::new();
    let mut i: usize = 0;
    while i < parts.len()
        invariant
            texts == texts_of(parts@),
            i <= parts@.len(),
            out@ == joined(texts.take(i as int), sep@),
        decreases parts@.len() - i,
    {
        proof {
            assert(texts.take(i + 1).drop_last() =~= texts.take(i as int));
            assert(texts.take(i + 1).last() == parts@[i as int]@);
            if i == 0 {
                assert(texts.take(1)[0] == parts@[0]@);
                assert(Seq::<char>::empty() + parts@[0]@ =~= parts@[0]@);
            }
        }
        if i > 0 {
            out.append(sep);
        }
        out.append(parts[i].as_str());
        i += 1;
    }
    proof {
        assert(texts.take(parts@.len() as int) =~= texts);
    }
    out
}

/// The text shown after the help of the command line: the animation kinds
/// and the profiles that can be named with this file.
pub fn after_help<N>(file: &FileConfig<N>) -> (r: String)
    ensures
        r@ == help_text(merged_names(builtin_names(), names_of(table_of(file.profiles@)))),
{
    let mut out = "Types: ".to_owned();
    out.append(join(&anim_type_names(), ", ").as_str());
    out.append("\nProfiles: ");
    out.append(join(&profile_names(&file.profiles), ", ").as_str());
    out
}

fn named_kind(text: &Option<String>) -> (r: Option<AnimType>)
    ensures
        r == kind_named(text_of(*text)),
{
    match text {
        Some(t) => AnimType::from_str(t.as_str()),
        None => None,
    }
}

fn named_shape(text: &Option<String>) -> (r: Option<Shape>)
    ensures
        r == shape_named(text_of(*text)),
{
    match text {
        Some(t) => Shape::from_str(t.as_str()),
        None => None,
    }
}

fn first<T>(a: Option<T>, b: Option<T>) -> (r: Option<T>)
    ensures
        r == or_else(a, b),
{
    if a.is_some() {
        a
    } else {
        b
    }
}

fn pick_number<N: Copy>(
    cli: Option<N>,
    profile: Option<Number<N>>,
    file: Option<N>,
    fallback: u32,
) -> (r: Number<N>)
    ensures
        r == pick(cli, profile, file, fallback),
{
    match cli {
        Some(n) => Number::Given(n),
        None => match profile {
            Some(p) => p,
            None => match file {
                Some(n) => Number::Given(n),
                None => Number::Thousandths(fallback),
            },
        },
    }
}

fn pick_colors(
    cli: &Option<Vec<String>>,
    profile: &Option<Vec<String>>,
    file: &Option<Vec<String>>,
    kind: AnimType,
) -> (r: Vec<Rgb>)
    ensures
        r@ == settled_colors(list_of(*cli), list_of(*profile), list_of(*file), kind),
{
    match cli {
        Some(list) => parse_colors(list),
        None => match profile {
            Some(list) => parse_colors(list),
            None => match file {
                Some(list) => parse_colors(list),
                None => kind.default_colors(),
            },
        },
    }
}

/// A time of the settings in nanoseconds: a built-in one has a million
/// nanoseconds to the thousandth of a second, one that the user wrote is what
/// `nanos` makes of it.
pub open spec fn time_of<N, F: Fn(N) -> u64>(time: Number<N>, nanos: F, out: u64) -> bool {
    match time {
        Number::Given(n) => nanos.ensures((n,), out),
        Number::Thousandths(v) => out == v * 1_000_000,
    }
}

fn in_nanos<N: Copy, F: Fn(N) -> u64>(value: Number<N>, nanos: &F) -> (out: u64)
    requires
        forall|n: N| nanos.requires((n,)),
    ensures
        time_of(value, *nanos, out),
{
    match value {
        Number::Given(n) => nanos(n),
        Number::Thousandths(v) => {
            let wide: u64 = v as u64;
            wide * 1_000_000
        },
    }
}

impl<N: Copy> Settings<N> {
    /// The scene that these settings describe. `nanos` turns a number of
    /// seconds that the user wrote into nanoseconds.
    pub fn scene<F: Fn(N) -> u64>(&self, nanos: F) -> (s: Scene)
        requires
            forall|n: N| nanos.requires((n,)),
        ensures
            s.anim_type == self.anim_type,
            s.shape == self.shape,
            s.particles == self.particles,
            s.palette == self.colors@.len(),
            time_of(self.duration, nanos, s.duration),
            time_of(self.fade, nanos, s.fade),
    {
        Scene {
            anim_type: self.anim_type,
            shape: self.shape,
            particles: self.particles,
            palette: self.colors.len(),
            duration: in_nanos(self.duration, &nanos),
            fade: in_nanos(self.fade, &nanos),
        }
    }

    /// Resolves the settings of a run from the command line, one chosen
    /// profile and the file.
    pub fn settle(cli: &Cli<N>, profile: &ProfileConfig<N>, file: &FileConfig<N>) -> (r: Settings<
        N,
    >)
        ensures
            r@ == settled(*cli, profile@, *file),
    {
        let kind = match first(
            first(first(named_kind(&cli.anim_type), named_kind(&profile.anim_type)), named_kind(&file.anim_type)),
            named_kind(&cli.profile),
        ) {
            Some(k) => k,
            None => AnimType::Confetti,
        };
        let shape = match first(
            first(named_shape(&cli.shape), named_shape(&profile.shape)),
            named_shape(&file.shape),
        ) {
            Some(s) => s,
            None => kind.default_shape(),
        };
        let d = kind.defaults();
        let particles = match first(first(cli.particles, profile.particles), file.particles) {
            Some(n) => n,
            None => d.particles,
        };
        Settings {
            anim_type: kind,
            shape,
            particles,
            duration: pick_number(cli.duration, profile.duration, file.duration, d.duration),
            gravity: pick_number(cli.gravity, profile.gravity, file.gravity, d.gravity),
            drag: pick_number(cli.drag, profile.drag, file.drag, d.drag),
            speed_min: pick_number(cli.speed_min, profile.speed_min, file.speed_min, d.speed_min),
            speed_max: pick_number(cli.speed_max, profile.speed_max, file.speed_max, d.speed_max),
            spread: pick_number(cli.spread, profile.spread, file.spread, d.spread),
            fade: pick_number(cli.fade, profile.fade, file.fade, d.fade),
            colors: pick_colors(&cli.colors, &profile.colors, &file.colors, kind),
        }
    }

    /// Resolves the settings of a run from the command line and the file.
    ///
    /// Fails exactly where the command line names something that is neither
    /// a profile of the file, nor a built-in profile, nor an animation kind;
    /// the error then carries that name and the profiles that can be named.
    pub fn resolve(cli: Cli<N>, file: FileConfig<N>) -> (r: Result<Settings<N>, UnknownName>)
        ensures
            match r {
                Ok(s) => chosen_profile(text_of(cli.profile), table_of(file.profiles@)) matches Some(
                    p,
                ) && s@ == settled(cli, p, file),
                Err(e) => {
                    &&& chosen_profile(text_of(cli.profile), table_of(file.profiles@)) is None
                    &&& Some(e.name@) == text_of(cli.profile)
                    &&& texts_of(e.profiles@) == merged_names(
                        builtin_names(),
                        names_of(table_of(file.profiles@)),
                    )
                },
            },
    {
        let builtins = builtin_profiles::<N>();
        let nothing = ProfileConfig::<N>::empty();
        match &cli.profile {
            None => Ok(Settings::settle(&cli, &nothing, &file)),
            Some(name) => match find_profile(&file.profiles, name.as_str()) {
                Some(p) => Ok(Settings::settle(&cli, p, &file)),
                None => match find_profile(&builtins, name.as_str()) {
                    Some(p) => Ok(Settings::settle(&cli, p, &file)),
                    None => if AnimType::from_str(name.as_str()).is_some() {
                        Ok(Settings::settle(&cli, &nothing, &file))
                    } else {
                        Err(
                            UnknownName {
                                name: name.clone(),
                                profiles: profile_names(&file.profiles),
                            },
                        )
                    },
                },
            },
        }
    }
}

} // verus!
