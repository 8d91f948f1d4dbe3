//! The window's decisions between one outside step and the next: which mask
//! applies, what to show once images are loaded, what to keep in the cache, which
//! stored icons can be regenerated, and what error text to show.
use vstd::prelude::*;
use crate::choices::default_mask_path;
use crate::decimal::{decimal, decimal_exec};
use crate::icon_name::{
    law_drag_file_name_round_trip, parse_name, plain_field, spec_drag_file_name,
    FilenameProperties, PropertiesText,
};
use crate::decimal::parse_unsigned;
use crate::properties::{BottomImageType, IconRegeneratable, MaskOption, MaskType, PropertiesError};
use crate::text::{chars_of, concat3, lit, push_all, replace_all, replace_all_exec, split, split_exec, str_eq, string_of, views, lemma_split_len};

verus! {

/// The mask setting after the mask switch is pressed, and the switch's new state:
/// a switch that was on turns off and disables the mask; otherwise it turns on and
/// the mask is made from the folder image.
pub fn toggle_mask(state: Option<bool>) -> (r: (MaskType, bool))
    ensures
        state == Some(true) ==> r.0 == MaskType::Disabled && !r.1,
        state != Some(true) ==> r.0 == MaskType::Automatic && r.1,
{
    match state {
        Some(true) => (MaskType::Disabled, false),
        _ => (MaskType::Automatic, true),
    }
}

/// Whether the mask switch shows as on for a mask setting: on unless disabled.
pub fn mask_switch_state(mask: &MaskType) -> (on: bool)
    ensures
        on == !(mask is Disabled),
{
    match mask {
        MaskType::Disabled => false,
        _ => true,
    }
}

/// The mask for a folder image: the built-in mask file for folder images that can be
/// regenerated, a mask made from the image otherwise.
pub fn get_mask_path(bottom: &BottomImageType) -> (m: MaskOption)
    ensures
        bottom@.strict_compatibility() is Some ==> (m matches MaskOption::Custom(p) && p@
            == "/app/share/folder_icon/folders/mask.svg"@),
        bottom@.strict_compatibility() is None ==> m == MaskOption::Automatic,
{
    match bottom.is_strict_compatible() {
        Some(_) => MaskOption::Custom(default_mask_path()),
        None => MaskOption::Automatic,
    }
}

/// What the window does once images are loaded.
#[derive(Debug, Clone, Copy, PartialEq, Eq, Structural)]
pub enum IconUpdate {
    /// Both images are there: render the icon on the main page; the top image
    /// controls are enabled when the top image is wider than one pixel.
    ShowIcon { enable_top_controls: bool },
    /// Only the folder image is there: load a one-pixel placeholder as the top image
    /// and disable the top image controls.
    LoadPlaceholderTop,
    /// Nothing to show yet.
    Nothing,
}

/// What the window does once images are loaded, from the width of the top image
/// (if there is one) and whether a folder image is there.
pub fn check_icon_update(top_width: Option<u32>, bottom_present: bool) -> (u: IconUpdate)
    ensures
        u == (match top_width {
            Some(w) => if bottom_present {
                IconUpdate::ShowIcon { enable_top_controls: w > 1 }
            } else {
                IconUpdate::Nothing
            },
            None => if bottom_present {
                IconUpdate::LoadPlaceholderTop
            } else {
                IconUpdate::Nothing
            },
        }),
{
    match top_width {
        Some(w) => if bottom_present {
            IconUpdate::ShowIcon { enable_top_controls: w > 1 }
        } else {
            IconUpdate::Nothing
        },
        None => if bottom_present {
            IconUpdate::LoadPlaceholderTop
        } else {
            IconUpdate::Nothing
        },
    }
}

/// The text of an error pop-up: the message, or when it is empty the error's own
/// text, or `unknown error` when there is no error either.
pub fn error_popup_message(message: &str, error: Option<&str>) -> (t: String)
    ensures
        message@.len() > 0 ==> t@ == message@,
        message@.len() == 0 ==> t@ == (match error {
            Some(e) => e@,
            None => "unknown error"@,
        }),
{
    if message.is_empty() {
        match error {
            Some(e) => e.to_owned(),
            None => "unknown error".to_owned(),
        }
    } else {
        message.to_owned()
    }
}

/// The markup of an error pop-up's heading around the translated word for error.
pub fn error_popup_heading(error_text: &str) -> (t: String)
    ensures
        t@ == "<span foreground=\"red\"><b>\u{26a0} "@ + error_text@ + "</b></span>"@,
{
    concat3("<span foreground=\"red\"><b>\u{26a0} ", error_text, "</b></span>")
}

/// Whether a file's content type is an image: its part before the first `/` is `image`.
pub fn is_image_content_type(content_type: Option<&str>) -> (b: bool)
    ensures
        b == (match content_type {
            Some(t) => split(t@, '/')[0] == "image"@,
            None => false,
        }),
{
    match content_type {
        Some(t) => {
            let parts = split_exec(&chars_of(t), '/');
            proof {
                lemma_split_len(t@, '/');
            }
            assert(views(parts@)[0] == parts@[0]@);
            let image = lit("image");
            crate::text::chars_eq(&parts[0], &image)
        },
        None => false,
    }
}

/// What happens to the top image when a dragged icon is stored.
#[derive(Debug, Clone, Copy, PartialEq, Eq, Structural)]
pub enum CacheAction {
    /// Nothing is stored.
    Skip,
    /// The original file is copied into the cache.
    SaveOriginal,
    /// The loaded image is encoded into the cache.
    SaveImage,
}

/// What happens to the top image when a dragged icon is stored: nothing when the
/// icon can never be regenerated or the cache already holds the image; otherwise
/// the original file when there is one and the image was not shrunk, else the
/// loaded image.
pub fn store_top_image_action(
    regeneratable: IconRegeneratable,
    cached: bool,
    has_original: bool,
    resized: bool,
) -> (a: CacheAction)
    ensures
        a == (if regeneratable == IconRegeneratable::No || cached {
            CacheAction::Skip
        } else if has_original && !resized {
            CacheAction::SaveOriginal
        } else {
            CacheAction::SaveImage
        }),
{
    if regeneratable == IconRegeneratable::No {
        CacheAction::Skip
    } else if cached {
        CacheAction::Skip
    } else if has_original && !resized {
        CacheAction::SaveOriginal
    } else {
        CacheAction::SaveImage
    }
}

/// The name of a top image in the cache: its hash in decimal.
pub fn top_image_cache_name(hash: u64) -> (s: String)
    ensures
        s@ == decimal(hash as nat),
{
    string_of(&decimal_exec(hash))
}

/// Where the manually chosen folder image comes from.
#[derive(Debug, Clone, Copy, PartialEq, Eq, Structural)]
pub enum FolderIconSource {
    /// The copy in the cache.
    Cache,
    /// The chosen file, copied into the cache first.
    CopyToCache,
    /// Neither is there: the user picks a new file.
    AskUser,
}

/// Where the manually chosen folder image comes from: the cache when it holds the
/// image, the chosen file when it exists, the user otherwise.
pub fn folder_icon_source(cache_exists: bool, icon_exists: bool) -> (s: FolderIconSource)
    ensures
        s == (if cache_exists {
            FolderIconSource::Cache
        } else if icon_exists {
            FolderIconSource::CopyToCache
        } else {
            FolderIconSource::AskUser
        }),
{
    if cache_exists {
        FolderIconSource::Cache
    } else if icon_exists {
        FolderIconSource::CopyToCache
    } else {
        FolderIconSource::AskUser
    }
}

/// How the window answers an offered drop: which of the two kinds of value it asks
/// for first, and whether it accepts the drop as a copy or not at all.
#[derive(Debug, Clone, Copy, PartialEq, Eq, Structural)]
pub struct DropAcceptance {
    /// The file is asked for before the texture.
    pub file_first: bool,
    /// The drop is accepted as a copy; otherwise no action is offered.
    pub copy: bool,
}

/// How an offered drop is answered. SVG data is taken as a file, other data as a
/// texture. While the window's own icon is being dragged, the drop is refused
/// unless dropping it back is allowed, and then it is taken as a file.
pub fn drop_acceptance(svg_offered: bool, drag_active: bool, allow_meta_drop: bool) -> (a: DropAcceptance)
    ensures
        a.file_first == (svg_offered || (drag_active && allow_meta_drop)),
        a.copy == (!drag_active || allow_meta_drop),
{
    let mut file_first = svg_offered;
    let copy: bool;
    if drag_active && !allow_meta_drop {
        copy = false;
    } else if drag_active && allow_meta_drop {
        file_first = true;
        copy = true;
    } else {
        copy = true;
    }
    DropAcceptance { file_first, copy }
}

/// Why a stored icon is not regenerated.
#[derive(Debug, Clone, Copy, PartialEq, Eq, Structural)]
pub enum SkipReason {
    /// Its file name cannot be read.
    Unreadable(PropertiesError),
    /// Its folder image can never be regenerated.
    NeverCompatible,
}

/// Whether a stored icon can be regenerated, judged by its file name: the name must
/// read as properties, and the folder image it records must be the system folder.
pub fn regeneration_candidate(file_name: &str) -> (r: Result<FilenameProperties, SkipReason>)
    ensures
        match parse_name(file_name@) {
            Err(e) => r == Err::<FilenameProperties, SkipReason>(SkipReason::Unreadable(e)),
            Ok(v) => if v.default_bottom_image {
                r matches Ok(p) && p@ == v
            } else {
                r == Err::<FilenameProperties, SkipReason>(SkipReason::NeverCompatible)
            },
        },
{
    match FilenameProperties::from_filename(file_name) {
        Err(e) => Err(SkipReason::Unreadable(e)),
        Ok(p) => {
            if p.bottom_image_type().is_strict_compatible().is_none() {
                Err(SkipReason::NeverCompatible)
            } else {
                Ok(p)
            }
        },
    }
}

/// A dragged icon is found again as one that can be regenerated exactly when it was
/// made while the icon could be regenerated in strict mode, and its hash is the hash
/// of its top image.
pub proof fn law_dragged_icon_is_candidate(p: PropertiesText, hash: u64, threshold: u8)
    requires
        plain_field(p.x_val@),
        plain_field(p.y_val@),
        plain_field(p.zoom_val@),
        plain_field(p.threshold@),
        plain_field(p.red@),
        plain_field(p.green@),
        plain_field(p.blue@),
        parse_unsigned(p.threshold@, 255) == Some(threshold as nat),
    ensures
        parse_name(spec_drag_file_name(p.spec_properties_string(), hash)) matches Ok(v)
            && v.default_bottom_image == (p.regeneratable == IconRegeneratable::Yes)
            && v.top_image_hash == hash,
{
    law_drag_file_name_round_trip(p, hash, threshold);
}

/// A regeneration of the stored icons in progress: the lock value it was started
/// under, the number of icons to regenerate, how many have been attempted, and how
/// many of those failed.
#[derive(Debug, Clone, Copy, PartialEq, Eq, Structural)]
pub struct RegenerationRun {
    pub id: u64,
    pub total: u64,
    pub done: u64,
    pub failures: u64,
}

impl RegenerationRun {
    /// No more icons are attempted than there are, and no more fail than are attempted.
    pub open spec fn wf(&self) -> bool {
        self.done <= self.total && self.failures <= self.done
    }

    /// A run over `total` icons, started under the lock value `id`.
    pub fn new(id: u64, total: u64) -> (r: RegenerationRun)
        ensures
            r == (RegenerationRun { id, total, done: 0, failures: 0 }),
            r.wf(),
    {
        RegenerationRun { id, total, done: 0, failures: 0 }
    }

    /// The run after the outcome of the icon just attempted, if any, is counted:
    /// `Some(true)` for a success, `Some(false)` for a failure.
    pub open spec fn recorded(self, last: Option<bool>) -> RegenerationRun {
        RegenerationRun {
            done: if last is Some { (self.done + 1) as u64 } else { self.done },
            failures: if last == Some(false) { (self.failures + 1) as u64 } else { self.failures },
            ..self
        }
    }
}

/// What the regeneration does next.
#[derive(Debug, Clone, Copy, PartialEq, Eq, Structural)]
pub enum RegenerationAction {
    /// There is no icon to regenerate.
    NothingToRegenerate,
    /// Regenerate the icon at this position of the list.
    Regenerate(u64),
    /// The run is over, all icons attempted or, when `stopped`, cut short because
    /// a newer regeneration started. The failure message is shown when
    /// `show_failure_message` is set, that is when some icon failed.
    Finish { stopped: bool, failures: u64, show_failure_message: bool },
}

/// One step of the regeneration loop. It counts the outcome of the icon just
/// attempted, then: with no icons there is nothing to regenerate; with every icon
/// attempted the run finishes; when the lock has moved on since the run started it
/// stops; otherwise the next icon is regenerated.
pub fn regeneration_step(run: RegenerationRun, current_lock: u64, last: Option<bool>) -> (r: (
    RegenerationRun,
    RegenerationAction,
))
    requires
        run.wf(),
        last is Some ==> run.done < run.total,
    ensures
        r.0 == run.recorded(last),
        r.0.wf(),
        run.total == 0 ==> r.1 == RegenerationAction::NothingToRegenerate,
        run.total > 0 && r.0.done == run.total ==> r.1 == (RegenerationAction::Finish {
            stopped: false,
            failures: r.0.failures,
            show_failure_message: r.0.failures > 0,
        }),
        run.total > 0 && r.0.done < run.total && current_lock != run.id ==> r.1 == (
        RegenerationAction::Finish {
            stopped: true,
            failures: r.0.failures,
            show_failure_message: r.0.failures > 0,
        }),
        run.total > 0 && r.0.done < run.total && current_lock == run.id ==> r.1
            == RegenerationAction::Regenerate(r.0.done),
{
    let done = match last {
        Some(_) => run.done + 1,
        None => run.done,
    };
    let failures = match last {
        Some(false) => run.failures + 1,
        _ => run.failures,
    };
    let next = RegenerationRun { id: run.id, total: run.total, done, failures };
    let action = if run.total == 0 {
        RegenerationAction::NothingToRegenerate
    } else if done == run.total {
        RegenerationAction::Finish { stopped: false, failures, show_failure_message: failures > 0 }
    } else if current_lock != run.id {
        RegenerationAction::Finish { stopped: true, failures, show_failure_message: failures > 0 }
    } else {
        RegenerationAction::Regenerate(done)
    };
    (next, action)
}

/// The start of the message shown when icons failed to regenerate: the number of
/// failures, a space, and the translated text.
pub fn regeneration_failure_message(failures: u64, text: &str) -> (s: String)
    ensures
        s@ == decimal(failures as nat) + " "@ + text@,
{
    let mut v = decimal_exec(failures);
    push_all(&mut v, &chars_of(" "));
    push_all(&mut v, &chars_of(text));
    string_of(&v)
}

/// The extension of a file's name as Iconic keeps it: a dot and the part after the
/// last dot (the whole name when it has no dot).
pub open spec fn spec_extension(file_name: Seq<char>) -> Seq<char> {
    seq!['.'] + split(file_name, '.').last()
}

/// The name and the extension of a loaded file: the extension is a dot and what
/// follows the last dot, and the name is the file name with every occurrence of the
/// extension taken out.
pub fn file_name_parts(file_name: &str) -> (r: (String, String))
    ensures
        r.1@ == spec_extension(file_name@),
        r.0@ == replace_all(file_name@, spec_extension(file_name@), Seq::<char>::empty()),
{
    let name = chars_of(file_name);
    let pieces = split_exec(&name, '.');
    proof {
        lemma_split_len(file_name@, '.');
    }
    let last = pieces.len() - 1;
    assert(views(pieces@)[last as int] == pieces@[last as int]@);
    let mut extension: Vec<char> = Vec::new();
    extension.push('.');
    push_all(&mut extension, &pieces[last]);
    assert(extension@ =~= spec_extension(file_name@));
    let nothing: Vec<char> = Vec::new();
    let stem = replace_all_exec(&name, &extension, &nothing);
    assert(nothing@ =~= Seq::<char>::empty());
    (string_of(&stem), string_of(&extension))
}

/// Whether the dialog on screen is the one asking to wait while Iconic is busy.
pub fn is_busy_dialog(default_response: Option<&str>) -> (b: bool)
    ensures
        b == (match default_response {
            Some(r) => r@ == "WAIT_QUIT"@,
            None => false,
        }),
{
    match default_response {
        Some(r) => str_eq(r, "WAIT_QUIT"),
        None => false,
    }
}

/// What the user chose when asked to save changes before closing.
#[derive(Debug, Clone, Copy, PartialEq, Eq, Structural)]
pub enum SaveChoice {
    Cancel,
    Discard,
    Save,
    Close,
}

/// The choice that an answer of the save-changes dialog stands for.
pub fn save_choice(response: &str) -> (c: SaveChoice)
    requires
        response@ == "cancel"@ || response@ == "discard"@ || response@ == "save"@ || response@
            == "close"@,
    ensures
        response@ == "cancel"@ ==> c == SaveChoice::Cancel,
        response@ == "discard"@ ==> c == SaveChoice::Discard,
        response@ == "save"@ ==> c == SaveChoice::Save,
        response@ == "close"@ ==> c == SaveChoice::Close,
{
    proof {
        reveal_strlit("cancel");
        reveal_strlit("discard");
        reveal_strlit("save");
        reveal_strlit("close");
        assert("discard"@.len() == 7 && "cancel"@.len() == 6 && "save"@.len() == 4
            && "close"@.len() == 5);
        assert("discard"@ != "cancel"@);
        assert("save"@ != "cancel"@);
        assert("save"@ != "discard"@);
    }
    if str_eq(response, "cancel") {
        SaveChoice::Cancel
    } else if str_eq(response, "discard") {
        SaveChoice::Discard
    } else if str_eq(response, "save") {
        SaveChoice::Save
    } else {
        SaveChoice::Close
    }
}

} // verus!
