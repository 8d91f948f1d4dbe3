//! The file name of a generated icon: `folder_new-<properties>-<hash>.png`, where the
//! properties are the placement and monochrome settings joined by `-`. Writing the
//! name and reading it back are the two halves of icon regeneration.
use vstd::prelude::*;
use crate::decimal::{
    bool_text, bool_text_exec, decimal, decimal_exec, lemma_decimal, parse_bool,
    parse_bool_exec, parse_u64, parse_u8, parse_unsigned, all_digits, is_digit,
};
use crate::properties::{BottomImageType, FilenameProperty, IconRegeneratable, PropertiesError};
use crate::text::{
    chars_eq, chars_of, has_char, join, join_exec, lemma_join_cons, lemma_join_no_char,
    lemma_remove_suffix, lemma_split_join, lemma_split_len, lit, push_all, replace_all,
    replace_all_exec, split, split_exec, string_of, views, occurs_at,
};

verus! {

pub open spec fn png_suffix() -> Seq<char> {
    seq!['.', 'p', 'n', 'g']
}

pub open spec fn folder_new() -> Seq<char> {
    seq!['f', 'o', 'l', 'd', 'e', 'r', '_', 'n', 'e', 'w']
}

/// The fields of a file name: every `.png` is taken out, and the rest is split at `-`.
pub open spec fn name_fields(name: Seq<char>) -> Seq<Seq<char>> {
    split(replace_all(name, png_suffix(), Seq::<char>::empty()), '-')
}

/// A field that holds a `u8`, read as a flag: any number other than zero is set.
pub open spec fn parse_flag(s: Seq<char>) -> Option<bool> {
    match parse_unsigned(s, 255) {
        Some(v) => Some(v != 0),
        None => None,
    }
}

/// The properties written into a file name, with the numbers that are kept as
/// floating point text held as that text.
pub struct FilenameView {
    pub default_bottom_image: bool,
    pub x_val: Seq<char>,
    pub y_val: Seq<char>,
    pub zoom_val: Seq<char>,
    pub monochrome_toggle: bool,
    pub monochrome_invert: bool,
    pub monochrome_default: bool,
    pub monochrome_threshold_val: u8,
    pub monochrome_color: Option<(Seq<char>, Seq<char>, Seq<char>)>,
    pub top_image_hash: u64,
}

/// What reading a file name gives. The fields are checked in the order in which
/// they are read: name, the three placement values (present), monochrome switch,
/// inversion, default colour, threshold, hash, bottom image. A field that is missing
/// or does not hold a value of its kind is the error.
pub open spec fn parse_name(name: Seq<char>) -> Result<FilenameView, PropertiesError> {
    let f = name_fields(name);
    if f[0] != folder_new() {
        Err(PropertiesError::Incompatible)
    } else if f.len() <= 2 {
        Err(PropertiesError::InvalidField(FilenameProperty::XScale))
    } else if f.len() <= 3 {
        Err(PropertiesError::InvalidField(FilenameProperty::YScale))
    } else if f.len() <= 4 {
        Err(PropertiesError::InvalidField(FilenameProperty::ZoomVal))
    } else if f.len() <= 5 || parse_flag(f[5]) is None {
        Err(PropertiesError::InvalidField(FilenameProperty::MonochromeSelected))
    } else if f.len() <= 10 || parse_flag(f[10]) is None {
        Err(PropertiesError::InvalidField(FilenameProperty::MonochromeInverted))
    } else if f.len() <= 11 || parse_bool(f[11]) is None {
        Err(PropertiesError::InvalidField(FilenameProperty::DefaultMonochromeColor))
    } else if parse_unsigned(f[6], 255) is None {
        Err(PropertiesError::InvalidField(FilenameProperty::MonochromeThreshold))
    } else if f.len() <= 12 || parse_unsigned(f[12], u64::MAX as nat) is None {
        Err(PropertiesError::InvalidField(FilenameProperty::Hash))
    } else if parse_flag(f[1]) is None {
        Err(PropertiesError::InvalidField(FilenameProperty::DefaultBottomImage))
    } else {
        let monochrome_default = parse_bool(f[11]).unwrap();
        Ok(
            FilenameView {
                default_bottom_image: parse_flag(f[1]).unwrap(),
                x_val: f[2],
                y_val: f[3],
                zoom_val: f[4],
                monochrome_toggle: parse_flag(f[5]).unwrap(),
                monochrome_invert: parse_flag(f[10]).unwrap(),
                monochrome_default,
                monochrome_threshold_val: parse_unsigned(f[6], 255).unwrap() as u8,
                monochrome_color: if !monochrome_default {
                    Some((f[7], f[8], f[9]))
                } else {
                    None
                },
                top_image_hash: parse_unsigned(f[12], u64::MAX as nat).unwrap() as u64,
            },
        )
    }
}

/// The properties read from a generated icon's file name. The placement values and
/// the colour fractions are decimal text of floating point numbers.
pub struct FilenameProperties {
    pub default_bottom_image: bool,
    pub x_val: String,
    pub y_val: String,
    pub zoom_val: String,
    pub monochrome_toggle: bool,
    pub monochrome_invert: bool,
    pub monochrome_default: bool,
    pub monochrome_threshold_val: u8,
    /// Red, green and blue as fractions of one; present when the colour is not the default.
    pub monochrome_color: Option<(String, String, String)>,
    pub top_image_hash: u64,
}

impl View for FilenameProperties {
    type V = FilenameView;

    open spec fn view(&self) -> FilenameView {
        FilenameView {
            default_bottom_image: self.default_bottom_image,
            x_val: self.x_val@,
            y_val: self.y_val@,
            zoom_val: self.zoom_val@,
            monochrome_toggle: self.monochrome_toggle,
            monochrome_invert: self.monochrome_invert,
            monochrome_default: self.monochrome_default,
            monochrome_threshold_val: self.monochrome_threshold_val,
            monochrome_color: match self.monochrome_color {
                Some(c) => Some((c.0@, c.1@, c.2@)),
                None => None,
            },
            top_image_hash: self.top_image_hash,
        }
    }
}

fn flag_exec(s: &Vec<char>) -> (r: Option<bool>)
    ensures
        r == parse_flag(s@),
{
    match parse_u8(s) {
        Some(v) => Some(v != 0),
        None => None,
    }
}

impl FilenameProperties {
    /// The folder image recorded in the name: the system folder when the field is set.
    pub open spec fn spec_bottom_image_type(&self) -> BottomImageType {
        if self.default_bottom_image {
            BottomImageType::FolderSystem
        } else {
            BottomImageType::Unknown
        }
    }

    /// The folder image recorded in the name: the system folder when the field is set.
    pub fn bottom_image_type(&self) -> (t: BottomImageType)
        ensures
            t == self.spec_bottom_image_type(),
    {
        if self.default_bottom_image {
            BottomImageType::FolderSystem
        } else {
            BottomImageType::Unknown
        }
    }

    /// Reads the properties stored in a generated icon's file name.
    pub fn from_filename(filename: &str) -> (r: Result<FilenameProperties, PropertiesError>)
        ensures
            match parse_name(filename@) {
                Ok(v) => r is Ok && r->Ok_0@ == v,
                Err(e) => r == Err::<FilenameProperties, PropertiesError>(e),
            },
    {
        let name = chars_of(filename);
        let png = lit(".png");
        proof {
            reveal_strlit(".png");
        }
        assert(png@ =~= png_suffix());
        let nothing: Vec<char> = Vec::new();
        let stem = replace_all_exec(&name, &png, &nothing);
        let fields = split_exec(&stem, '-');
        let ghost f = name_fields(filename@);
        assert(views(fields@) == f);
        assert(fields@.len() == f.len());
        proof {
            lemma_split_len(stem@, '-');
        }
        assert forall|k: int| 0 <= k < f.len() implies fields@[k]@ == #[trigger] f[k] by {
            assert(views(fields@)[k] == fields@[k]@);
        }
        let expected = lit("folder_new");
        proof {
            reveal_strlit("folder_new");
        }
        assert(expected@ =~= folder_new());
        assert(fields@[0]@ == f[0]);
        if !chars_eq(&fields[0], &expected) {
            return Err(PropertiesError::Incompatible);
        }
        let n = fields.len();
        if n <= 2 {
            return Err(PropertiesError::InvalidField(FilenameProperty::XScale));
        }
        if n <= 3 {
            return Err(PropertiesError::InvalidField(FilenameProperty::YScale));
        }
        if n <= 4 {
            return Err(PropertiesError::InvalidField(FilenameProperty::ZoomVal));
        }
        let monochrome_toggle = if n <= 5 {
            return Err(PropertiesError::InvalidField(FilenameProperty::MonochromeSelected));
        } else {
            match flag_exec(&fields[5]) {
                Some(b) => b,
                None => {
                    return Err(PropertiesError::InvalidField(FilenameProperty::MonochromeSelected));
                },
            }
        };
        let monochrome_invert = if n <= 10 {
            return Err(PropertiesError::InvalidField(FilenameProperty::MonochromeInverted));
        } else {
            match flag_exec(&fields[10]) {
                Some(b) => b,
                None => {
                    return Err(PropertiesError::InvalidField(FilenameProperty::MonochromeInverted));
                },
            }
        };
        let monochrome_default = if n <= 11 {
            return Err(PropertiesError::InvalidField(FilenameProperty::DefaultMonochromeColor));
        } else {
            match parse_bool_exec(&fields[11]) {
                Some(b) => b,
                None => {
                    return Err(
                        PropertiesError::InvalidField(FilenameProperty::DefaultMonochromeColor),
                    );
                },
            }
        };
        let monochrome_threshold_val = match parse_u8(&fields[6]) {
            Some(v) => v,
            None => {
                return Err(PropertiesError::InvalidField(FilenameProperty::MonochromeThreshold));
            },
        };
        let top_image_hash = if n <= 12 {
            return Err(PropertiesError::InvalidField(FilenameProperty::Hash));
        } else {
            match parse_u64(&fields[12]) {
                Some(v) => v,
                None => {
                    return Err(PropertiesError::InvalidField(FilenameProperty::Hash));
                },
            }
        };
        let default_bottom_image = match flag_exec(&fields[1]) {
            Some(b) => b,
            None => {
                return Err(PropertiesError::InvalidField(FilenameProperty::DefaultBottomImage));
            },
        };
        let monochrome_color = if !monochrome_default {
            Some((string_of(&fields[7]), string_of(&fields[8]), string_of(&fields[9])))
        } else {
            None
        };
        let props = FilenameProperties {
            default_bottom_image,
            x_val: string_of(&fields[2]),
            y_val: string_of(&fields[3]),
            zoom_val: string_of(&fields[4]),
            monochrome_toggle,
            monochrome_invert,
            monochrome_default,
            monochrome_threshold_val,
            monochrome_color,
            top_image_hash,
        };
        Ok(props)
    }
}

/// The text of a flag in a file name: `1` when set, `0` otherwise.
pub open spec fn flag_text(b: bool) -> Seq<char> {
    decimal(if b {
        1nat
    } else {
        0nat
    })
}

/// The settings of the current icon that go into its file name. The placement
/// values, the threshold and the colour fractions are the decimal text of the
/// floating point values shown in the window.
pub struct PropertiesText {
    pub regeneratable: IconRegeneratable,
    pub x_val: String,
    pub y_val: String,
    pub zoom_val: String,
    pub monochrome: bool,
    pub threshold: String,
    pub red: String,
    pub green: String,
    pub blue: String,
    pub inverted: bool,
    pub default_monochrome: bool,
}

impl PropertiesText {
    /// The eleven fields, in the order in which they are written.
    pub open spec fn spec_fields(&self) -> Seq<Seq<char>> {
        seq![
            flag_text(self.regeneratable == IconRegeneratable::Yes),
            self.x_val@,
            self.y_val@,
            self.zoom_val@,
            flag_text(self.monochrome),
            self.threshold@,
            self.red@,
            self.green@,
            self.blue@,
            flag_text(self.inverted),
            bool_text(self.default_monochrome),
        ]
    }

    /// The fields joined by `-`.
    pub open spec fn spec_properties_string(&self) -> Seq<char> {
        join(self.spec_fields(), '-')
    }

    /// A string with all properties applied to the current image, which makes it
    /// possible to recreate the image while the top image is still available.
    pub fn create_image_properties_string(&self) -> (s: String)
        ensures
            s@ == self.spec_properties_string(),
    {
        let mut fields: Vec<Vec<char>> = Vec::new();
        let strict = match self.regeneratable {
            IconRegeneratable::Yes => true,
            _ => false,
        };
        fields.push(decimal_exec(if strict { 1 } else { 0 }));
        fields.push(chars_of(self.x_val.as_str()));
        fields.push(chars_of(self.y_val.as_str()));
        fields.push(chars_of(self.zoom_val.as_str()));
        fields.push(decimal_exec(if self.monochrome { 1 } else { 0 }));
        fields.push(chars_of(self.threshold.as_str()));
        fields.push(chars_of(self.red.as_str()));
        fields.push(chars_of(self.green.as_str()));
        fields.push(chars_of(self.blue.as_str()));
        fields.push(decimal_exec(if self.inverted { 1 } else { 0 }));
        fields.push(bool_text_exec(self.default_monochrome));
        assert(views(fields@) =~= self.spec_fields());
        let joined = join_exec(&fields, '-');
        string_of(&joined)
    }
}

/// The name of the file that a dragged icon is saved to: `folder_new-`, the
/// properties, `-`, the hash of the top image and `.png`.
pub open spec fn spec_drag_file_name(properties: Seq<char>, hash: u64) -> Seq<char> {
    folder_new() + seq!['-'] + properties + seq!['-'] + decimal(hash as nat) + png_suffix()
}

/// The name of the file that a dragged icon is saved to.
pub fn drag_file_name(properties: &str, hash: u64) -> (s: String)
    ensures
        s@ == spec_drag_file_name(properties@, hash),
{
    let mut out = lit("folder_new");
    proof {
        reveal_strlit("folder_new");
        reveal_strlit(".png");
    }
    out.push('-');
    push_all(&mut out, &chars_of(properties));
    out.push('-');
    push_all(&mut out, &decimal_exec(hash));
    push_all(&mut out, &lit(".png"));
    assert(out@ =~= spec_drag_file_name(properties@, hash));
    string_of(&out)
}

/// Text that can stand as a field of a file name: it holds no `-`, which separates
/// fields, and no `p`, so that no `.png` is found in it.
pub open spec fn plain_field(s: Seq<char>) -> bool {
    !has_char(s, '-') && !has_char(s, 'p')
}

proof fn lemma_digits_plain(s: Seq<char>)
    requires
        all_digits(s),
    ensures
        plain_field(s),
{
    if has_char(s, '-') {
        let i = choose|i: int| 0 <= i < s.len() && s[i] == '-';
        assert(is_digit(s[i]));
    }
    if has_char(s, 'p') {
        let i = choose|i: int| 0 <= i < s.len() && s[i] == 'p';
        assert(is_digit(s[i]));
    }
}

proof fn lemma_literal_plain(s: Seq<char>)
    requires
        s == folder_new() || s == bool_text(true) || s == bool_text(false),
    ensures
        plain_field(s),
{
    if has_char(s, '-') {
        let i = choose|i: int| 0 <= i < s.len() && s[i] == '-';
        assert(s[i] == '-');
    }
    if has_char(s, 'p') {
        let i = choose|i: int| 0 <= i < s.len() && s[i] == 'p';
        assert(s[i] == 'p');
    }
}

/// The file name written for a dragged icon reads back as the properties it was
/// written from: the placement and colour texts come back unchanged, the flags and
/// numbers come back as the values they were written from, and the folder image
/// reads as the system folder exactly when the icon could be regenerated in strict
/// mode. This holds when every
/// text field is plain (no `-`, no `p`) and the threshold text is a `u8`.
pub proof fn law_drag_file_name_round_trip(p: PropertiesText, hash: u64, threshold: u8)
    requires
        plain_field(p.x_val@),
        plain_field(p.y_val@),
        plain_field(p.zoom_val@),
        plain_field(p.threshold@),
        plain_field(p.red@),
        plain_field(p.green@),
        plain_field(p.blue@),
        parse_unsigned(p.threshold@, 255) == Some(threshold as nat),
    ensures
        parse_name(spec_drag_file_name(p.spec_properties_string(), hash)) == Ok::<
            FilenameView,
            PropertiesError,
        >(
            FilenameView {
                default_bottom_image: p.regeneratable == IconRegeneratable::Yes,
                x_val: p.x_val@,
                y_val: p.y_val@,
                zoom_val: p.zoom_val@,
                monochrome_toggle: p.monochrome,
                monochrome_invert: p.inverted,
                monochrome_default: p.default_monochrome,
                monochrome_threshold_val: threshold,
                monochrome_color: if !p.default_monochrome {
                    Some((p.red@, p.green@, p.blue@))
                } else {
                    None
                },
                top_image_hash: hash,
            },
        ),
{
    let fields = p.spec_fields();
    let all = (seq![folder_new()] + fields).push(decimal(hash as nat));
    let code = if p.regeneratable == IconRegeneratable::Yes { 1nat } else { 0nat };
    let mono = if p.monochrome { 1nat } else { 0nat };
    let inv = if p.inverted { 1nat } else { 0nat };
    lemma_decimal(code);
    lemma_decimal(mono);
    lemma_decimal(inv);
    lemma_decimal(hash as nat);
    lemma_digits_plain(decimal(code));
    lemma_digits_plain(decimal(mono));
    lemma_digits_plain(decimal(inv));
    lemma_digits_plain(decimal(hash as nat));
    lemma_literal_plain(folder_new());
    lemma_literal_plain(bool_text(p.default_monochrome));
    assert(all.len() == 13);
    assert(all[0] == folder_new());
    assert(all[12] == decimal(hash as nat));
    assert forall|k: int| 1 <= k < 12 implies #[trigger] all[k] == fields[k - 1] by {}
    assert forall|k: int| 0 <= k < 13 implies plain_field(#[trigger] all[k]) by {
        if 1 <= k < 12 {
            assert(all[k] == fields[k - 1]);
        }
    }
    assert forall|k: int| 0 <= k < all.len() implies !has_char(#[trigger] all[k], '-') by {
        assert(plain_field(all[k]));
    }
    assert forall|k: int| 0 <= k < all.len() implies !has_char(#[trigger] all[k], 'p') by {
        assert(plain_field(all[k]));
    }
    // The name is the thirteen fields joined by `-`, followed by `.png`.
    lemma_join_cons(folder_new(), fields, '-');
    let front = seq![folder_new()] + fields;
    assert(all.drop_last() =~= front);
    assert(all.last() == decimal(hash as nat));
    assert(join(all, '-') == join(front, '-') + seq!['-'] + decimal(hash as nat));
    let joined = join(all, '-');
    assert(spec_drag_file_name(p.spec_properties_string(), hash) =~= joined + png_suffix());
    lemma_join_no_char(all, '-', 'p');
    lemma_remove_suffix(joined, png_suffix());
    lemma_split_join(all, '-');
    let f = name_fields(spec_drag_file_name(p.spec_properties_string(), hash));
    assert(f == all);
    // Each field reads back as the value it was written from.
    crate::decimal::lemma_parse_decimal(mono, 255);
    crate::decimal::lemma_parse_decimal(inv, 255);
    crate::decimal::lemma_parse_decimal(code, 255);
    crate::decimal::lemma_parse_decimal(hash as nat, u64::MAX as nat);
    assert(f[5] == decimal(mono));
    assert(f[10] == decimal(inv));
    assert(f[1] == decimal(code));
    assert(f[6] == p.threshold@);
    assert(f[11] == bool_text(p.default_monochrome));
    assert(parse_bool(bool_text(p.default_monochrome)) == Some(p.default_monochrome));
}

} // verus!
