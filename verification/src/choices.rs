//! The decisions that settings make: which folder image goes under the icon, which
//! accent colour is the default monochrome colour, where a dropped image goes, which
//! mask is used, and whether the current icon can be regenerated.
use vstd::prelude::*;
use crate::color::Rgb8;
use crate::properties::{BottomImageType, BottomImageView, IconRegeneratable};
use crate::text::{chars_of, concat3, push_all, str_eq, string_of};

verus! {

/// The folder image chosen by the settings: a custom image when manual selection
/// is on, the custom colours when the accent setting is `Custom`, the system folder
/// when it is `None`, and the named folder colour otherwise.
pub open spec fn spec_bottom_image_for_settings(
    manual: bool,
    selected: Seq<char>,
    primary: Seq<char>,
    secondary: Seq<char>,
) -> BottomImageView {
    if manual {
        BottomImageView::Custom
    } else if selected == "Custom"@ {
        BottomImageView::FolderCustom(primary, secondary)
    } else if selected == "None"@ {
        BottomImageView::FolderSystem
    } else {
        BottomImageView::Folder(selected)
    }
}

/// The folder image that the settings choose.
pub fn bottom_image_for_settings(
    manual: bool,
    selected: &str,
    primary: &str,
    secondary: &str,
) -> (t: BottomImageType)
    ensures
        t@ == spec_bottom_image_for_settings(manual, selected@, primary@, secondary@),
        manual ==> t == BottomImageType::Custom,
        !manual && selected@ == "Custom"@ ==> t@ == BottomImageView::FolderCustom(primary@, secondary@),
        !manual && selected@ == "None"@ ==> t == BottomImageType::FolderSystem,
        !manual && selected@ != "Custom"@ && selected@ != "None"@ ==> t@ == BottomImageView::Folder(
            selected@,
        ),
{
    proof {
        reveal_strlit("None");
        reveal_strlit("Custom");
        assert("None"@.len() != "Custom"@.len());
    }
    if manual {
        BottomImageType::Custom
    } else if str_eq(selected, "Custom") {
        BottomImageType::FolderCustom(primary.to_owned(), secondary.to_owned())
    } else if str_eq(selected, "None") {
        BottomImageType::FolderSystem
    } else {
        BottomImageType::Folder(selected.to_owned())
    }
}

/// A folder image picked by hand is used whatever the accent setting says; only
/// without one does the accent setting choose: the custom colours for `Custom`, the
/// system folder for `None`, and the folder of the named colour otherwise.
pub proof fn law_manual_folder_image_wins(
    manual: bool,
    selected: Seq<char>,
    primary: Seq<char>,
    secondary: Seq<char>,
)
    ensures
        manual ==> spec_bottom_image_for_settings(manual, selected, primary, secondary)
            == BottomImageView::Custom,
        !manual ==> spec_bottom_image_for_settings(manual, selected, primary, secondary) != BottomImageView::Custom,
        !manual && selected == "None"@ ==> spec_bottom_image_for_settings(manual, selected, primary, secondary)
            == BottomImageView::FolderSystem,
        !manual && selected == "Custom"@ ==> spec_bottom_image_for_settings(
            manual,
            selected,
            primary,
            secondary,
        ) == BottomImageView::FolderCustom(primary, secondary),
        !manual && selected != "None"@ && selected != "Custom"@ ==> spec_bottom_image_for_settings(
            manual,
            selected,
            primary,
            secondary,
        ) == BottomImageView::Folder(selected),
{
    reveal_strlit("None");
    reveal_strlit("Custom");
    assert("None"@.len() != "Custom"@.len());
}

/// The name of the folder colour whose image is built in: the system accent colour
/// when the setting is `None`, the setting otherwise.
pub open spec fn spec_folder_color_name(setting: Seq<char>, system_accent: Seq<char>) -> Seq<char> {
    if setting == "None"@ {
        system_accent
    } else {
        setting
    }
}

/// The path of the built-in folder image of a colour.
pub open spec fn spec_folder_path(color: Seq<char>) -> Seq<char> {
    "/app/share/folder_icon/folders/folder_"@ + color + ".svg"@
}

/// The path of the built-in folder image that an accent setting selects.
pub fn load_built_in_bottom_icon(accent_color_setting: &str, system_accent: &str) -> (p: String)
    ensures
        p@ == spec_folder_path(spec_folder_color_name(accent_color_setting@, system_accent@)),
        accent_color_setting@ == "None"@ ==> p@ == "/app/share/folder_icon/folders/folder_"@
            + system_accent@ + ".svg"@,
        accent_color_setting@ != "None"@ ==> p@ == "/app/share/folder_icon/folders/folder_"@
            + accent_color_setting@ + ".svg"@,
{
    let name = if str_eq(accent_color_setting, "None") {
        system_accent
    } else {
        accent_color_setting
    };
    concat3("/app/share/folder_icon/folders/folder_", name, ".svg")
}

/// The path of the mask that goes with the built-in folder images.
pub fn default_mask_path() -> (p: String)
    ensures
        p@ == "/app/share/folder_icon/folders/mask.svg"@,
{
    "/app/share/folder_icon/folders/mask.svg".to_owned()
}

/// The accent colour whose default colour is the default monochrome colour: the
/// system accent when the setting is `None`, blue for a manually chosen folder image,
/// and the setting otherwise.
pub open spec fn spec_default_color_name(
    selected: Seq<char>,
    manual: bool,
    system_accent: Seq<char>,
) -> Seq<char> {
    if selected == "None"@ {
        system_accent
    } else if manual {
        "Blue"@
    } else {
        selected
    }
}

/// The accent colour whose default colour is the default monochrome colour.
pub fn default_color_name(selected: &str, manual: bool, system_accent: &str) -> (n: String)
    ensures
        n@ == spec_default_color_name(selected@, manual, system_accent@),
        selected@ == "None"@ ==> n@ == system_accent@,
        selected@ != "None"@ && manual ==> n@ == "Blue"@,
        selected@ != "None"@ && !manual ==> n@ == selected@,
{
    if str_eq(selected, "None") {
        system_accent.to_owned()
    } else if manual {
        "Blue".to_owned()
    } else {
        selected.to_owned()
    }
}

/// The colour of each accent colour's folder.
pub open spec fn spec_accent_color(name: Seq<char>) -> Option<Rgb8> {
    if name == "Blue"@ {
        Some(Rgb8 { r: 67, g: 141, b: 230 })
    } else if name == "Teal"@ {
        Some(Rgb8 { r: 33, g: 144, b: 164 })
    } else if name == "Green"@ {
        Some(Rgb8 { r: 38, g: 162, b: 105 })
    } else if name == "Yellow"@ {
        Some(Rgb8 { r: 200, g: 136, b: 0 })
    } else if name == "Orange"@ {
        Some(Rgb8 { r: 237, g: 91, b: 0 })
    } else if name == "Red"@ {
        Some(Rgb8 { r: 230, g: 45, b: 66 })
    } else if name == "Pink"@ {
        Some(Rgb8 { r: 212, g: 95, b: 151 })
    } else if name == "Purple"@ {
        Some(Rgb8 { r: 145, g: 65, b: 172 })
    } else if name == "Slate"@ {
        Some(Rgb8 { r: 111, g: 131, b: 150 })
    } else {
        None
    }
}

/// The colour of an accent colour's folder, if it has one.
pub fn accent_color(name: &str) -> (c: Option<Rgb8>)
    ensures
        c == spec_accent_color(name@),
        name@ == "Blue"@ ==> c == Some(Rgb8 { r: 67, g: 141, b: 230 }),
        name@ == "Teal"@ ==> c == Some(Rgb8 { r: 33, g: 144, b: 164 }),
        name@ == "Green"@ ==> c == Some(Rgb8 { r: 38, g: 162, b: 105 }),
        name@ == "Yellow"@ ==> c == Some(Rgb8 { r: 200, g: 136, b: 0 }),
        name@ == "Orange"@ ==> c == Some(Rgb8 { r: 237, g: 91, b: 0 }),
        name@ == "Red"@ ==> c == Some(Rgb8 { r: 230, g: 45, b: 66 }),
        name@ == "Pink"@ ==> c == Some(Rgb8 { r: 212, g: 95, b: 151 }),
        name@ == "Purple"@ ==> c == Some(Rgb8 { r: 145, g: 65, b: 172 }),
        name@ == "Slate"@ ==> c == Some(Rgb8 { r: 111, g: 131, b: 150 }),
        c is Some <==> exists|i: int| 0 <= i < 9 && name@ == #[trigger] spec_accent_names()[i],
{
    proof {
        lemma_accent_names_distinct();
    }
    if str_eq(name, "Blue") {
        Some(Rgb8 { r: 67, g: 141, b: 230 })
    } else if str_eq(name, "Teal") {
        Some(Rgb8 { r: 33, g: 144, b: 164 })
    } else if str_eq(name, "Green") {
        Some(Rgb8 { r: 38, g: 162, b: 105 })
    } else if str_eq(name, "Yellow") {
        Some(Rgb8 { r: 200, g: 136, b: 0 })
    } else if str_eq(name, "Orange") {
        Some(Rgb8 { r: 237, g: 91, b: 0 })
    } else if str_eq(name, "Red") {
        Some(Rgb8 { r: 230, g: 45, b: 66 })
    } else if str_eq(name, "Pink") {
        Some(Rgb8 { r: 212, g: 95, b: 151 })
    } else if str_eq(name, "Purple") {
        Some(Rgb8 { r: 145, g: 65, b: 172 })
    } else if str_eq(name, "Slate") {
        Some(Rgb8 { r: 111, g: 131, b: 150 })
    } else {
        None
    }
}

/// Each of the nine accent colours has a folder colour of its own: two different
/// accent names never share a colour, and a name outside the nine has none.
pub proof fn law_accent_colors_distinct(i: int, j: int, name: Seq<char>)
    requires
        0 <= i < 9,
        0 <= j < 9,
    ensures
        spec_accent_color(spec_accent_names()[i]) is Some,
        i != j ==> spec_accent_color(spec_accent_names()[i]) != spec_accent_color(spec_accent_names()[j]),
        (forall|k: int| 0 <= k < 9 ==> name != #[trigger] spec_accent_names()[k]) ==> spec_accent_color(name) is None,
{
    lemma_accent_names_distinct();
    if !(forall|k: int| 0 <= k < 9 ==> name != #[trigger] spec_accent_names()[k]) {
    } else {
        assert(name != spec_accent_names()[0]);
        assert(name != spec_accent_names()[1]);
        assert(name != spec_accent_names()[2]);
        assert(name != spec_accent_names()[3]);
        assert(name != spec_accent_names()[4]);
        assert(name != spec_accent_names()[5]);
        assert(name != spec_accent_names()[6]);
        assert(name != spec_accent_names()[7]);
        assert(name != spec_accent_names()[8]);
    }
}

proof fn lemma_accent_names_distinct()
    ensures
        spec_accent_names()[0] == "Blue"@,
        spec_accent_names()[1] == "Teal"@,
        spec_accent_names()[2] == "Green"@,
        spec_accent_names()[3] == "Yellow"@,
        spec_accent_names()[4] == "Orange"@,
        spec_accent_names()[5] == "Red"@,
        spec_accent_names()[6] == "Pink"@,
        spec_accent_names()[7] == "Purple"@,
        spec_accent_names()[8] == "Slate"@,
        forall|a: int, b: int| 0 <= a < 9 && 0 <= b < 9 && a != b ==> #[trigger] spec_accent_names()[a] != #[trigger] spec_accent_names()[b],
{
    reveal_strlit("Blue");
    reveal_strlit("Teal");
    reveal_strlit("Green");
    reveal_strlit("Yellow");
    reveal_strlit("Orange");
    reveal_strlit("Red");
    reveal_strlit("Pink");
    reveal_strlit("Purple");
    reveal_strlit("Slate");
    reveal_strlit("Custom");
    let n = spec_accent_names();
    assert forall|a: int, b: int| 0 <= a < 9 && 0 <= b < 9 && a != b implies #[trigger] n[a] != #[trigger] n[b] by {
        assert(n[a].len() != n[b].len() || n[a][0] != n[b][0] || n[a][1] != n[b][1]);
    }
}

/// The default colour for the monochrome switch, when the chosen accent colour has one.
pub fn get_default_color(selected: &str, manual: bool, system_accent: &str) -> (c: Option<Rgb8>)
    ensures
        c == spec_accent_color(spec_default_color_name(selected@, manual, system_accent@)),
{
    let name = default_color_name(selected, manual, system_accent);
    accent_color(name.as_str())
}

/// The default primary colour of a custom folder.
pub fn default_primary_folder_color() -> (c: Rgb8)
    ensures
        c == (Rgb8 { r: 164, g: 202, b: 238 }),
{
    Rgb8 { r: 164, g: 202, b: 238 }
}

/// The default secondary colour of a custom folder.
pub fn default_secondary_folder_color() -> (c: Rgb8)
    ensures
        c == (Rgb8 { r: 67, g: 141, b: 230 }),
{
    Rgb8 { r: 67, g: 141, b: 230 }
}

/// The accent colours in the order of the preferences' drop-down.
pub open spec fn spec_accent_names() -> Seq<Seq<char>> {
    seq![
        "Blue"@,
        "Teal"@,
        "Green"@,
        "Yellow"@,
        "Orange"@,
        "Red"@,
        "Pink"@,
        "Purple"@,
        "Slate"@,
        "Custom"@,
    ]
}

/// The accent colour selected at a position of the preferences' drop-down.
pub fn get_selected_accent_color(index: usize) -> (n: String)
    requires
        index < 10,
    ensures
        n@ == spec_accent_names()[index as int],
{
    let name = if index == 0 {
        "Blue"
    } else if index == 1 {
        "Teal"
    } else if index == 2 {
        "Green"
    } else if index == 3 {
        "Yellow"
    } else if index == 4 {
        "Orange"
    } else if index == 5 {
        "Red"
    } else if index == 6 {
        "Pink"
    } else if index == 7 {
        "Purple"
    } else if index == 8 {
        "Slate"
    } else {
        "Custom"
    };
    name.to_owned()
}

/// Whether the custom folder colour rows are shown: the accent setting is `Custom`
/// and the system colour is not used.
pub fn show_color_options(selected: &str, use_system_color: bool) -> (b: bool)
    ensures
        b == (selected@ == "Custom"@ && !use_system_color),
{
    str_eq(selected, "Custom") && !use_system_color
}

/// The stored default action for dropped images: `top` or `bottom`.
pub fn dnd_radio_state(top_active: bool) -> (s: String)
    ensures
        s@ == (if top_active {
            "top"@
        } else {
            "bottom"@
        }),
{
    if top_active {
        "top".to_owned()
    } else {
        "bottom".to_owned()
    }
}

/// Where a dropped or pasted image goes, or that the user is to be asked.
#[derive(Debug, Clone, Copy, PartialEq, Eq, Structural)]
pub enum LayerChoice {
    Top,
    Bottom,
    Nowhere,
    Ask,
}

/// Where a dropped image goes without asking: with the default action switched on,
/// `top` and `bottom` decide it and anything else loads nothing; otherwise the user
/// is asked.
pub open spec fn spec_default_layer(dnd_activated: bool, dnd_action: Seq<char>) -> LayerChoice {
    if !dnd_activated {
        LayerChoice::Ask
    } else if dnd_action == "top"@ {
        LayerChoice::Top
    } else if dnd_action == "bottom"@ {
        LayerChoice::Bottom
    } else {
        LayerChoice::Nowhere
    }
}

/// Where a dropped image goes without asking.
pub fn top_or_bottom_default(dnd_activated: bool, dnd_action: &str) -> (c: LayerChoice)
    ensures
        c == spec_default_layer(dnd_activated, dnd_action@),
{
    if !dnd_activated {
        LayerChoice::Ask
    } else if str_eq(dnd_action, "top") {
        LayerChoice::Top
    } else if str_eq(dnd_action, "bottom") {
        LayerChoice::Bottom
    } else {
        LayerChoice::Nowhere
    }
}

/// The layer that an answer of the layer dialog selects: `Some(true)` for the top.
pub fn layer_from_response(response: &str) -> (r: Option<bool>)
    ensures
        r == (if response@ == "TOP"@ {
            Some(true)
        } else if response@ == "BOTTOM"@ {
            Some(false)
        } else {
            None::<bool>
        }),
{
    if str_eq(response, "TOP") {
        Some(true)
    } else if str_eq(response, "BOTTOM") {
        Some(false)
    } else {
        None
    }
}

/// Whether the current icon can be regenerated: only when neither a manually chosen
/// nor a temporary folder image is in use, strictly so with the system accent colour.
pub open spec fn spec_regeneratable(manual: bool, temp_loaded: bool, selected: Seq<char>) -> IconRegeneratable {
    if manual || temp_loaded {
        IconRegeneratable::No
    } else if selected == "None"@ {
        IconRegeneratable::Yes
    } else {
        IconRegeneratable::NotStrictOnly
    }
}

/// An icon made on a folder image picked by hand or loaded only for this icon can
/// never be regenerated, whatever the accent setting. Otherwise it can always be
/// regenerated, and strictly so exactly when the accent setting follows the system.
pub proof fn law_regeneratable_needs_built_in_folder(manual: bool, temp_loaded: bool, selected: Seq<char>)
    ensures
        (spec_regeneratable(manual, temp_loaded, selected) == IconRegeneratable::No) <==> (manual
            || temp_loaded),
        (spec_regeneratable(manual, temp_loaded, selected) == IconRegeneratable::Yes) <==> (!manual
            && !temp_loaded && selected == "None"@),
{
}

/// Whether the current icon can be regenerated.
pub fn regeneration_current_file_uses_compatible_bottom_image(
    manual: bool,
    temp_loaded: bool,
    selected: &str,
) -> (r: IconRegeneratable)
    ensures
        r == spec_regeneratable(manual, temp_loaded, selected@),
        manual || temp_loaded ==> r == IconRegeneratable::No,
        !manual && !temp_loaded && selected@ == "None"@ ==> r == IconRegeneratable::Yes,
        !manual && !temp_loaded && selected@ != "None"@ ==> r == IconRegeneratable::NotStrictOnly,
{
    let definitely_not_regeneratable = !manual && !temp_loaded;
    if !definitely_not_regeneratable {
        IconRegeneratable::No
    } else if str_eq(selected, "None") {
        IconRegeneratable::Yes
    } else {
        IconRegeneratable::NotStrictOnly
    }
}

/// The folder image that the temporary folder colour menu selects: nothing for an
/// empty choice, the custom colours for `Custom`, the named colour otherwise.
pub open spec fn spec_temp_folder_choice(
    value: Seq<char>,
    primary: Seq<char>,
    secondary: Seq<char>,
) -> Option<BottomImageView> {
    if value.len() == 0 {
        None
    } else if value == "Custom"@ {
        Some(BottomImageView::FolderCustom(primary, secondary))
    } else {
        Some(BottomImageView::Folder(value))
    }
}

/// The folder image that the temporary folder colour menu selects.
pub fn temp_folder_choice(value: &str, primary: &str, secondary: &str) -> (r: Option<
    BottomImageType,
>)
    ensures
        match r {
            Some(t) => spec_temp_folder_choice(value@, primary@, secondary@) == Some(t@),
            None => spec_temp_folder_choice(value@, primary@, secondary@) is None,
        },
{
    if value.is_empty() {
        None
    } else if str_eq(value, "Custom") {
        Some(BottomImageType::FolderCustom(primary.to_owned(), secondary.to_owned()))
    } else {
        Some(BottomImageType::Folder(value.to_owned()))
    }
}

/// The folder colour shown as selected in the menu for the current folder image.
pub open spec fn spec_menu_folder_value(t: BottomImageView, system_accent: Seq<char>) -> Seq<char> {
    match t {
        BottomImageView::FolderSystem => system_accent,
        BottomImageView::Folder(color) => color,
        BottomImageView::FolderCustom(_, _) => "Custom"@,
        _ => Seq::<char>::empty(),
    }
}

/// The folder colour shown as selected in the menu for the current folder image.
pub fn menu_folder_value(t: &BottomImageType, system_accent: &str) -> (s: String)
    ensures
        s@ == spec_menu_folder_value(t@, system_accent@),
{
    match t {
        BottomImageType::FolderSystem => system_accent.to_owned(),
        BottomImageType::Folder(color) => color.clone(),
        BottomImageType::FolderCustom(_, _) => "Custom".to_owned(),
        _ => String::new(),
    }
}

/// Choosing in the folder colour menu the value it shows for the current folder image
/// selects that folder image again, for a named folder colour and for the custom
/// colours currently set.
pub proof fn law_menu_choice_round_trip(
    t: BottomImageView,
    system_accent: Seq<char>,
    primary: Seq<char>,
    secondary: Seq<char>,
)
    requires
        (t matches BottomImageView::Folder(c) && c.len() > 0 && c != "Custom"@) || t
            == BottomImageView::FolderCustom(primary, secondary),
    ensures
        spec_temp_folder_choice(spec_menu_folder_value(t, system_accent), primary, secondary)
            == Some(t),
{
    reveal_strlit("Custom");
}

/// Whether the hint about regenerating icons is shown after a drag: it was not
/// shown before and the folder image can be regenerated in strict mode.
pub fn show_regeneration_hint(hint_shown: bool, bottom: &BottomImageType) -> (b: bool)
    ensures
        b == (!hint_shown && bottom@.strict_compatibility() == Some(true)),
{
    !hint_shown && bottom.is_strict_compatible() == Some(true)
}

/// Whether stored icons are regenerated on start: the system accent colour changed
/// since the last run and automatic regeneration is on.
pub fn check_if_regeneration_needed(previous_accent: &str, current_accent: &str, automatic: bool) -> (b: bool)
    ensures
        b == (previous_accent@ != current_accent@ && automatic),
{
    !str_eq(previous_accent, current_accent) && automatic
}

/// The file name under which a folder image is kept in the cache: `folder.` and
/// the extension of the original.
pub fn cache_file_name(extension: &str) -> (s: String)
    ensures
        s@ == "folder."@ + extension@,
{
    let s = concat3("folder.", extension, "");
    proof {
        reveal_strlit("");
    }
    assert(s@ =~= "folder."@ + extension@);
    s
}

/// The name offered when saving an icon: `folder-`, the top image's name, `.png`.
pub fn save_file_name(top_image_name: &str) -> (s: String)
    ensures
        s@ == "folder-"@ + top_image_name@ + ".png"@,
{
    concat3("folder-", top_image_name, ".png")
}

/// The name of the file that a drag writes: `folder-`, a random text, `-temp` for
/// the file that is still being written, and `.png`.
pub fn random_drag_file_name(random: &str, temp: bool) -> (s: String)
    ensures
        s@ == "folder-"@ + random@ + (if temp {
            "-temp"@
        } else {
            ""@
        }) + ".png"@,
{
    let mut v = chars_of("folder-");
    push_all(&mut v, &chars_of(random));
    if temp {
        push_all(&mut v, &chars_of("-temp"));
    } else {
        push_all(&mut v, &chars_of(""));
    }
    push_all(&mut v, &chars_of(".png"));
    assert(v@ =~= "folder-"@ + random@ + (if temp {
        "-temp"@
    } else {
        ""@
    }) + ".png"@);
    string_of(&v)
}

} // verus!
