use std::sync::Arc;

use vstd::prelude::*;

use crate::paths::{tilde_expand, tilde_expanded};

verus! {

/// A width and a height in pixels; a side of zero means that side is not limited.
#[derive(Debug, Clone, Copy, PartialEq, Eq, Structural)]
pub struct Size {
    pub width: u16,
    pub height: u16,
}

impl Default for Size {
    fn default() -> (r: Self)
        ensures
            r == (Size { width: 0, height: 0 }),
    {
        Size { width: 0, height: 0 }
    }
}

/// The image protocol that the terminal was found to support.
#[derive(Debug, Clone, Copy, PartialEq, Eq, Structural)]
pub enum ImageBackend {
    Kitty,
    Iterm2,
    Sixel,
    UeberzugWayland,
    UeberzugX11,
    Block,
}

/// Where album art is looked for, and in what order.
#[derive(Debug, Clone, Copy, PartialEq, Eq, Structural)]
pub enum AlbumArtOrder {
    EmbeddedFirst,
    FileFirst,
    EmbeddedOnly,
    FileOnly,
}

impl Default for AlbumArtOrder {
    fn default() -> (r: Self)
        ensures
            r == AlbumArtOrder::EmbeddedFirst,
    {
        AlbumArtOrder::EmbeddedFirst
    }
}

/// How album art is animated, as written in the configuration file.
#[derive(Debug, Clone, Copy, PartialEq, Eq, Structural)]
pub enum AlbumArtEffectFile {
    Static,
    Rotate,
}

/// How album art is animated at run time.
#[derive(Debug, Clone, Copy, PartialEq, Eq, Structural)]
pub enum AlbumArtEffect {
    Static,
    Rotate,
}

/// Horizontal placement of album art, as written in the configuration file.
#[derive(Debug, Clone, Copy, PartialEq, Eq, Structural)]
pub enum HorizontalAlignFile {
    Left,
    Center,
    Right,
}

/// Horizontal placement of album art at run time.
#[derive(Debug, Clone, Copy, PartialEq, Eq, Structural)]
pub enum HorizontalAlign {
    Left,
    Center,
    Right,
}

/// Where album art is looked for, as written in the configuration file.
#[derive(Debug, Clone, Copy, PartialEq, Eq, Structural)]
pub enum AlbumArtOrderFile {
    EmbeddedFirst,
    FileFirst,
    EmbeddedOnly,
    FileOnly,
}

/// Vertical placement of album art, as written in the configuration file.
#[derive(Debug, Clone, Copy, PartialEq, Eq, Structural)]
pub enum VerticalAlignFile {
    Top,
    Center,
    Bottom,
}

/// Vertical placement of album art at run time.
#[derive(Debug, Clone, Copy, PartialEq, Eq, Structural)]
pub enum VerticalAlign {
    Top,
    Center,
    Bottom,
}

/// The image protocol asked for in the configuration file.
#[derive(Debug, Clone, Copy, PartialEq, Eq, Structural)]
pub enum ImageMethodFile {
    Kitty,
    UeberzugWayland,
    UeberzugX11,
    Iterm2,
    Sixel,
    Block,
    Disabled,
    Auto,
}

/// The image protocol in use at run time.
#[derive(Debug, Clone, Copy, PartialEq, Eq, Structural)]
pub enum ImageMethod {
    Kitty,
    UeberzugWayland,
    UeberzugX11,
    Iterm2,
    Sixel,
    Disabled,
    Block,
}

impl Default for AlbumArtEffectFile {
    fn default() -> (r: Self)
        ensures
            r == AlbumArtEffectFile::Static,
    {
        AlbumArtEffectFile::Static
    }
}

impl Default for AlbumArtEffect {
    fn default() -> (r: Self)
        ensures
            r == AlbumArtEffect::Static,
    {
        AlbumArtEffect::Static
    }
}

impl Default for HorizontalAlignFile {
    fn default() -> (r: Self)
        ensures
            r == HorizontalAlignFile::Center,
    {
        HorizontalAlignFile::Center
    }
}

impl Default for HorizontalAlign {
    fn default() -> (r: Self)
        ensures
            r == HorizontalAlign::Center,
    {
        HorizontalAlign::Center
    }
}

impl Default for AlbumArtOrderFile {
    fn default() -> (r: Self)
        ensures
            r == AlbumArtOrderFile::EmbeddedFirst,
    {
        AlbumArtOrderFile::EmbeddedFirst
    }
}

impl Default for VerticalAlignFile {
    fn default() -> (r: Self)
        ensures
            r == VerticalAlignFile::Center,
    {
        VerticalAlignFile::Center
    }
}

impl Default for VerticalAlign {
    fn default() -> (r: Self)
        ensures
            r == VerticalAlign::Center,
    {
        VerticalAlign::Center
    }
}

impl Default for ImageMethodFile {
    fn default() -> (r: Self)
        ensures
            r == ImageMethodFile::Auto,
    {
        ImageMethodFile::Auto
    }
}

impl Default for ImageMethod {
    fn default() -> (r: Self)
        ensures
            r == ImageMethod::Block,
    {
        ImageMethod::Block
    }
}

/// The run-time effect for a configured effect: the variant of the same name.
pub open spec fn effect_from_file(value: AlbumArtEffectFile) -> AlbumArtEffect {
    match value {
        AlbumArtEffectFile::Static => AlbumArtEffect::Static,
        AlbumArtEffectFile::Rotate => AlbumArtEffect::Rotate,
    }
}

/// The run-time vertical placement for a configured one: the variant of the same name.
pub open spec fn vertical_align_from_file(value: VerticalAlignFile) -> VerticalAlign {
    match value {
        VerticalAlignFile::Top => VerticalAlign::Top,
        VerticalAlignFile::Center => VerticalAlign::Center,
        VerticalAlignFile::Bottom => VerticalAlign::Bottom,
    }
}

/// The run-time horizontal placement for a configured one: the variant of the same name.
pub open spec fn horizontal_align_from_file(value: HorizontalAlignFile) -> HorizontalAlign {
    match value {
        HorizontalAlignFile::Left => HorizontalAlign::Left,
        HorizontalAlignFile::Center => HorizontalAlign::Center,
        HorizontalAlignFile::Right => HorizontalAlign::Right,
    }
}

/// The search order for a configured one: the variant of the same name.
pub open spec fn order_from_file(value: AlbumArtOrderFile) -> AlbumArtOrder {
    match value {
        AlbumArtOrderFile::EmbeddedFirst => AlbumArtOrder::EmbeddedFirst,
        AlbumArtOrderFile::FileFirst => AlbumArtOrder::FileFirst,
        AlbumArtOrderFile::EmbeddedOnly => AlbumArtOrder::EmbeddedOnly,
        AlbumArtOrderFile::FileOnly => AlbumArtOrder::FileOnly,
    }
}

/// The image method for a detected backend: the variant of the same name.
pub open spec fn method_from_backend(value: ImageBackend) -> ImageMethod {
    match value {
        ImageBackend::Kitty => ImageMethod::Kitty,
        ImageBackend::Iterm2 => ImageMethod::Iterm2,
        ImageBackend::Sixel => ImageMethod::Sixel,
        ImageBackend::UeberzugWayland => ImageMethod::UeberzugWayland,
        ImageBackend::UeberzugX11 => ImageMethod::UeberzugX11,
        ImageBackend::Block => ImageMethod::Block,
    }
}

impl From<AlbumArtEffectFile> for AlbumArtEffect {
    fn from(value: AlbumArtEffectFile) -> (r: Self) {
        match value {
            AlbumArtEffectFile::Static => AlbumArtEffect::Static,
            AlbumArtEffectFile::Rotate => AlbumArtEffect::Rotate,
        }
    }
}

impl vstd::std_specs::convert::FromSpecImpl<AlbumArtEffectFile> for AlbumArtEffect {
    open spec fn obeys_from_spec() -> bool {
        true
    }

    open spec fn from_spec(value: AlbumArtEffectFile) -> AlbumArtEffect {
        effect_from_file(value)
    }
}

impl From<VerticalAlignFile> for VerticalAlign {
    fn from(value: VerticalAlignFile) -> (r: Self) {
        match value {
            VerticalAlignFile::Top => VerticalAlign::Top,
            VerticalAlignFile::Center => VerticalAlign::Center,
            VerticalAlignFile::Bottom => VerticalAlign::Bottom,
        }
    }
}

impl vstd::std_specs::convert::FromSpecImpl<VerticalAlignFile> for VerticalAlign {
    open spec fn obeys_from_spec() -> bool {
        true
    }

    open spec fn from_spec(value: VerticalAlignFile) -> VerticalAlign {
        vertical_align_from_file(value)
    }
}

impl From<HorizontalAlignFile> for HorizontalAlign {
    fn from(value: HorizontalAlignFile) -> (r: Self) {
        match value {
            HorizontalAlignFile::Left => HorizontalAlign::Left,
            HorizontalAlignFile::Center => HorizontalAlign::Center,
            HorizontalAlignFile::Right => HorizontalAlign::Right,
        }
    }
}

impl vstd::std_specs::convert::FromSpecImpl<HorizontalAlignFile> for HorizontalAlign {
    open spec fn obeys_from_spec() -> bool {
        true
    }

    open spec fn from_spec(value: HorizontalAlignFile) -> HorizontalAlign {
        horizontal_align_from_file(value)
    }
}

impl From<ImageBackend> for ImageMethod {
    fn from(value: ImageBackend) -> (r: Self) {
        match value {
            ImageBackend::Kitty => ImageMethod::Kitty,
            ImageBackend::Iterm2 => ImageMethod::Iterm2,
            ImageBackend::Sixel => ImageMethod::Sixel,
            ImageBackend::UeberzugWayland => ImageMethod::UeberzugWayland,
            ImageBackend::UeberzugX11 => ImageMethod::UeberzugX11,
            ImageBackend::Block => ImageMethod::Block,
        }
    }
}

impl vstd::std_specs::convert::FromSpecImpl<ImageBackend> for ImageMethod {
    open spec fn obeys_from_spec() -> bool {
        true
    }

    open spec fn from_spec(value: ImageBackend) -> ImageMethod {
        method_from_backend(value)
    }
}

/// The album-art section of the configuration file. The rotation speed, a
/// floating-point number, is kept beside this value by the application.
#[derive(Debug, Clone, PartialEq)]
pub struct AlbumArtConfigFile {
    pub method: ImageMethodFile,
    pub effect: AlbumArtEffectFile,
    pub order: AlbumArtOrderFile,
    pub max_size_px: Size,
    pub disabled_protocols: Vec<String>,
    pub vertical_align: VerticalAlignFile,
    pub horizontal_align: HorizontalAlignFile,
    pub rotation_fps: u8,
    pub custom_loader: Option<Vec<String>>,
}

/// The album-art settings in use at run time. The rotation speed, a
/// floating-point number, is kept beside this value by the application.
#[derive(Debug, Clone)]
pub struct AlbumArtConfig {
    pub method: ImageMethod,
    pub effect: AlbumArtEffect,
    pub order: AlbumArtOrder,
    pub max_size_px: Size,
    pub disabled_protocols: Vec<String>,
    pub vertical_align: VerticalAlign,
    pub horizontal_align: HorizontalAlign,
    pub rotation_fps: u8,
    pub custom_loader: Option<Arc<Vec<String>>>,
}

/// The protocols from which album art is not loaded unless configured otherwise.
pub open spec fn default_disabled_protocols() -> Seq<Seq<char>> {
    seq!["http://"@, "https://"@]
}

/// The views of a list of strings.
pub open spec fn string_views(v: Seq<String>) -> Seq<Seq<char>> {
    v.map_values(|s: String| s@)
}

impl Default for AlbumArtConfigFile {
    fn default() -> (r: Self)
        ensures
            r.method == ImageMethodFile::Auto,
            r.effect == AlbumArtEffectFile::Static,
            r.order == AlbumArtOrderFile::EmbeddedFirst,
            r.max_size_px == (Size { width: 0, height: 0 }),
            string_views(r.disabled_protocols@) == default_disabled_protocols(),
            r.vertical_align == VerticalAlignFile::Center,
            r.horizontal_align == HorizontalAlignFile::Center,
            r.rotation_fps == 6,
            r.custom_loader is None,
    {
        let protocols = vec![String::from_str("http://"), String::from_str("https://")];
        proof {
            assert(string_views(protocols@) =~= default_disabled_protocols());
        }
        AlbumArtConfigFile {
            method: ImageMethodFile::default(),
            effect: AlbumArtEffectFile::default(),
            order: AlbumArtOrderFile::default(),
            max_size_px: Size::default(),
            disabled_protocols: protocols,
            vertical_align: VerticalAlignFile::default(),
            horizontal_align: HorizontalAlignFile::default(),
            rotation_fps: 6,
            custom_loader: None,
        }
    }
}

impl Default for AlbumArtConfig {
    fn default() -> (r: Self)
        ensures
            r.method == ImageMethod::Block,
            r.effect == AlbumArtEffect::Static,
            r.order == AlbumArtOrder::EmbeddedFirst,
            r.max_size_px == (Size { width: 0, height: 0 }),
            r.disabled_protocols@.len() == 0,
            r.vertical_align == VerticalAlign::Center,
            r.horizontal_align == HorizontalAlign::Center,
            r.rotation_fps == 0,
            r.custom_loader is None,
    {
        AlbumArtConfig {
            method: ImageMethod::default(),
            effect: AlbumArtEffect::default(),
            order: AlbumArtOrder::default(),
            max_size_px: Size::default(),
            disabled_protocols: Vec::new(),
            vertical_align: VerticalAlign::default(),
            horizontal_align: HorizontalAlign::default(),
            rotation_fps: 0,
            custom_loader: None,
        }
    }
}

/// A configured side length of zero means "no limit", which is the largest `u16`.
pub open spec fn side_limit(side: u16) -> u16 {
    if side == 0 {
        u16::MAX
    } else {
        side
    }
}

/// The frame rate of the rotation effect, held between 1 and 12 frames per second.
pub open spec fn clamped_fps(fps: u8) -> u8 {
    if fps < 1 {
        1
    } else if fps > 12 {
        12
    } else {
        fps
    }
}

/// Every loader argument with a leading `~` expanded to the home directory.
pub open spec fn expanded_loader(args: Seq<Seq<char>>, home: Option<Seq<char>>) -> Seq<Seq<char>> {
    args.map_values(|a: Seq<char>| tilde_expanded(a, home))
}

/// The view of an optional home directory.
pub open spec fn home_view(home: Option<&str>) -> Option<Seq<char>> {
    match home {
        Some(h) => Some(h@),
        None => None,
    }
}

/// The frame rate in use is always between 1 and 12 frames per second, and a
/// configured rate already in that range is kept as it is.
pub proof fn lemma_fps_in_range(fps: u8)
    ensures
        1 <= clamped_fps(fps) <= 12,
        1 <= fps <= 12 ==> clamped_fps(fps) == fps,
        clamped_fps(clamped_fps(fps)) == clamped_fps(fps),
{
}

/// A side of the maximum size in use is never zero: zero means unlimited, and a
/// configured non-zero side is kept as it is.
pub proof fn lemma_size_limit_never_zero(side: u16)
    ensures
        side_limit(side) != 0,
        side != 0 ==> side_limit(side) == side,
        side == 0 ==> side_limit(side) == u16::MAX,
{
}

/// The defaults of the configuration file stand for the defaults in use: the
/// default effect, placements and search order convert to the run-time defaults.
pub proof fn lemma_file_defaults_convert_to_defaults()
    ensures
        effect_from_file(AlbumArtEffectFile::Static) == AlbumArtEffect::Static,
        vertical_align_from_file(VerticalAlignFile::Center) == VerticalAlign::Center,
        horizontal_align_from_file(HorizontalAlignFile::Center) == HorizontalAlign::Center,
        order_from_file(AlbumArtOrderFile::EmbeddedFirst) == AlbumArtOrder::EmbeddedFirst,
{
}

/// Distinct configured choices stay distinct once converted, and a detected
/// backend never turns images off.
pub proof fn lemma_conversions_are_one_to_one(
    e1: AlbumArtEffectFile,
    e2: AlbumArtEffectFile,
    v1: VerticalAlignFile,
    v2: VerticalAlignFile,
    h1: HorizontalAlignFile,
    h2: HorizontalAlignFile,
    o1: AlbumArtOrderFile,
    o2: AlbumArtOrderFile,
    b1: ImageBackend,
    b2: ImageBackend,
)
    ensures
        effect_from_file(e1) == effect_from_file(e2) ==> e1 == e2,
        vertical_align_from_file(v1) == vertical_align_from_file(v2) ==> v1 == v2,
        horizontal_align_from_file(h1) == horizontal_align_from_file(h2) ==> h1 == h2,
        order_from_file(o1) == order_from_file(o2) ==> o1 == o2,
        method_from_backend(b1) == method_from_backend(b2) ==> b1 == b2,
        method_from_backend(b1) != ImageMethod::Disabled,
{
}

/// Every conversion keeps the variant's name: each configured effect, placement
/// and search order, and each detected backend, becomes the run-time value of
/// the same name.
pub proof fn lemma_conversions_keep_variant_names()
    ensures
        effect_from_file(AlbumArtEffectFile::Static) == AlbumArtEffect::Static,
        effect_from_file(AlbumArtEffectFile::Rotate) == AlbumArtEffect::Rotate,
        vertical_align_from_file(VerticalAlignFile::Top) == VerticalAlign::Top,
        vertical_align_from_file(VerticalAlignFile::Center) == VerticalAlign::Center,
        vertical_align_from_file(VerticalAlignFile::Bottom) == VerticalAlign::Bottom,
        horizontal_align_from_file(HorizontalAlignFile::Left) == HorizontalAlign::Left,
        horizontal_align_from_file(HorizontalAlignFile::Center) == HorizontalAlign::Center,
        horizontal_align_from_file(HorizontalAlignFile::Right) == HorizontalAlign::Right,
        order_from_file(AlbumArtOrderFile::EmbeddedFirst) == AlbumArtOrder::EmbeddedFirst,
        order_from_file(AlbumArtOrderFile::FileFirst) == AlbumArtOrder::FileFirst,
        order_from_file(AlbumArtOrderFile::EmbeddedOnly) == AlbumArtOrder::EmbeddedOnly,
        order_from_file(AlbumArtOrderFile::FileOnly) == AlbumArtOrder::FileOnly,
        method_from_backend(ImageBackend::Kitty) == ImageMethod::Kitty,
        method_from_backend(ImageBackend::Iterm2) == ImageMethod::Iterm2,
        method_from_backend(ImageBackend::Sixel) == ImageMethod::Sixel,
        method_from_backend(ImageBackend::UeberzugWayland) == ImageMethod::UeberzugWayland,
        method_from_backend(ImageBackend::UeberzugX11) == ImageMethod::UeberzugX11,
        method_from_backend(ImageBackend::Block) == ImageMethod::Block,
{
}

/// Expanding the loader keeps every argument in its place, each expanded on its
/// own; the default disabled protocols are plain HTTP and HTTPS; and a known home
/// directory is passed on as it is.
pub proof fn lemma_loader_and_defaults(args: Seq<Seq<char>>, home: Option<Seq<char>>, h: &str)
    ensures
        expanded_loader(args, home).len() == args.len(),
        forall|i: int|
            0 <= i < args.len() ==> #[trigger] expanded_loader(args, home)[i] == tilde_expanded(
                args[i],
                home,
            ),
        home is None ==> expanded_loader(args, home) == args,
        default_disabled_protocols().len() == 2,
        default_disabled_protocols()[0] == "http://"@,
        default_disabled_protocols()[1] == "https://"@,
        home_view(Some(h)) == Some(h@),
        home_view(None) is None,
{
    if home is None {
        assert(expanded_loader(args, home) =~= args);
    }
}

/// The maximum size in use for a configured one: a zero side becomes unlimited.
pub fn max_size_from_file(size: Size) -> (r: Size)
    ensures
        r.width == side_limit(size.width),
        r.height == side_limit(size.height),
{
    Size {
        width: if size.width == 0 { u16::MAX } else { size.width },
        height: if size.height == 0 { u16::MAX } else { size.height },
    }
}

/// Holds a rotation frame rate between 1 and 12 frames per second.
pub fn clamp_fps(fps: u8) -> (r: u8)
    ensures
        r == clamped_fps(fps),
        1 <= r <= 12,
{
    if fps < 1 {
        1
    } else if fps > 12 {
        12
    } else {
        fps
    }
}

/// Expands a leading `~` in each loader argument.
pub fn expand_loader(args: Vec<String>, home: Option<&str>) -> (r: Vec<String>)
    ensures
        string_views(r@) == expanded_loader(string_views(args@), home_view(home)),
{
    let mut out: Vec<String> = Vec::new();
    let n = args.len();
    for i in 0..n
        invariant
            n == args@.len(),
            out@.len() == i,
            forall|j: int|
                0 <= j < i ==> (#[trigger] out@[j])@ == tilde_expanded(args@[j]@, home_view(home)),
    {
        out.push(tilde_expand(args[i].as_str(), home));
    }
    proof {
        assert(string_views(out@) =~= expanded_loader(string_views(args@), home_view(home)));
    }
    out
}

impl AlbumArtConfig {
    /// Turns the configured album-art section into the settings in use: the image
    /// method starts at its default (the detected backend replaces it later), every
    /// other choice keeps its variant, a zero side of the maximum size becomes
    /// unlimited, the frame rate is held between 1 and 12, and a leading `~` of each
    /// custom loader argument is expanded to `home` when a home directory is known.
    pub fn from_file(value: AlbumArtConfigFile, home: Option<&str>) -> (r: Self)
        ensures
            r.method == ImageMethod::Block,
            r.effect == effect_from_file(value.effect),
            r.order == order_from_file(value.order),
            r.max_size_px.width == side_limit(value.max_size_px.width),
            r.max_size_px.height == side_limit(value.max_size_px.height),
            r.disabled_protocols == value.disabled_protocols,
            r.vertical_align == vertical_align_from_file(value.vertical_align),
            r.horizontal_align == horizontal_align_from_file(value.horizontal_align),
            r.rotation_fps == clamped_fps(value.rotation_fps),
            r.custom_loader is Some <==> value.custom_loader is Some,
            value.custom_loader is Some ==> string_views(r.custom_loader->0@) == expanded_loader(
                string_views(value.custom_loader->0@),
                home_view(home),
            ),
    {
        let order = match value.order {
            AlbumArtOrderFile::EmbeddedFirst => AlbumArtOrder::EmbeddedFirst,
            AlbumArtOrderFile::FileFirst => AlbumArtOrder::FileFirst,
            AlbumArtOrderFile::EmbeddedOnly => AlbumArtOrder::EmbeddedOnly,
            AlbumArtOrderFile::FileOnly => AlbumArtOrder::FileOnly,
        };
        let custom_loader = match value.custom_loader {
            Some(args) => Some(Arc::new(expand_loader(args, home))),
            None => None,
        };
        AlbumArtConfig {
            method: ImageMethod::default(),
            effect: AlbumArtEffect::from(value.effect),
            order,
            max_size_px: max_size_from_file(value.max_size_px),
            disabled_protocols: value.disabled_protocols,
            vertical_align: VerticalAlign::from(value.vertical_align),
            horizontal_align: HorizontalAlign::from(value.horizontal_align),
            rotation_fps: clamp_fps(value.rotation_fps),
            custom_loader,
        }
    }
}

} // verus!
