//! The properties of an icon as Iconic stores them in the icon's XMP metadata: a
//! list of named text values that is written when the icon is saved and read back
//! when the icon is opened for regeneration.
use vstd::prelude::*;
use crate::color::Rgb8;
use crate::decimal::{
    bool_text, bool_text_exec, decimal, decimal_exec, lemma_parse_decimal, parse_bool,
    parse_bool_exec, parse_u64, parse_u8, parse_unsigned,
};
use crate::properties::{PropertiesError, XmpProperty};
use crate::text::{chars_of, str_eq, string_of};

verus! {

impl XmpProperty {
    /// The name under which the property is stored.
    pub open spec fn spec_name(self) -> Seq<char> {
        match self {
            XmpProperty::XVal => "x_val"@,
            XmpProperty::YVal => "y_val"@,
            XmpProperty::ZoomVal => "zoom_val"@,
            XmpProperty::MonochromeToggle => "monochrome_toggle"@,
            XmpProperty::MonochromeRed => "monochrome_red"@,
            XmpProperty::MonochromeGreen => "monochrome_green"@,
            XmpProperty::MonochromeBlue => "monochrome_blue"@,
            XmpProperty::MonochromeDefault => "monochrome_default"@,
            XmpProperty::MonochromeInvert => "monochrome_invert"@,
            XmpProperty::MonochromeThreshold => "monochrome_threshold"@,
            XmpProperty::TopImageHash => "top_image_hash"@,
            XmpProperty::BottomImageType => "bottom_image_type"@,
            XmpProperty::Default => "default"@,
        }
    }
}

/// Different properties are stored under different names.
pub proof fn lemma_names_distinct(p: XmpProperty, q: XmpProperty)
    requires
        p != q,
    ensures
        p.spec_name() != q.spec_name(),
{
    reveal_strlit("x_val");
    reveal_strlit("y_val");
    reveal_strlit("zoom_val");
    reveal_strlit("monochrome_toggle");
    reveal_strlit("monochrome_red");
    reveal_strlit("monochrome_green");
    reveal_strlit("monochrome_blue");
    reveal_strlit("monochrome_default");
    reveal_strlit("monochrome_invert");
    reveal_strlit("monochrome_threshold");
    reveal_strlit("top_image_hash");
    reveal_strlit("bottom_image_type");
    reveal_strlit("default");
    if p.spec_name() == q.spec_name() {
        assert(p.spec_name().len() == q.spec_name().len());
        assert(p.spec_name()[0] == q.spec_name()[0]);
        assert(p.spec_name()[p.spec_name().len() - 1] == q.spec_name()[q.spec_name().len() - 1]);
        assert(p.spec_name()[11] == q.spec_name()[11]);
    }
}

impl XmpProperty {
    /// The name under which the property is stored.
    pub fn name(&self) -> (n: String)
        ensures
            n@ == self.spec_name(),
    {
        match self {
            XmpProperty::XVal => "x_val".to_owned(),
            XmpProperty::YVal => "y_val".to_owned(),
            XmpProperty::ZoomVal => "zoom_val".to_owned(),
            XmpProperty::MonochromeToggle => "monochrome_toggle".to_owned(),
            XmpProperty::MonochromeRed => "monochrome_red".to_owned(),
            XmpProperty::MonochromeGreen => "monochrome_green".to_owned(),
            XmpProperty::MonochromeBlue => "monochrome_blue".to_owned(),
            XmpProperty::MonochromeDefault => "monochrome_default".to_owned(),
            XmpProperty::MonochromeInvert => "monochrome_invert".to_owned(),
            XmpProperty::MonochromeThreshold => "monochrome_threshold".to_owned(),
            XmpProperty::TopImageHash => "top_image_hash".to_owned(),
            XmpProperty::BottomImageType => "bottom_image_type".to_owned(),
            XmpProperty::Default => "default".to_owned(),
        }
    }
}

/// The value stored under `key`: the first entry with that name.
pub open spec fn lookup(entries: Seq<(Seq<char>, Seq<char>)>, key: Seq<char>) -> Option<Seq<char>>
    decreases entries.len(),
{
    if entries.len() == 0 {
        None
    } else if entries[0].0 == key {
        Some(entries[0].1)
    } else {
        lookup(entries.drop_first(), key)
    }
}

/// The metadata entries as plain values.
pub open spec fn entries_view(entries: Seq<(String, String)>) -> Seq<(Seq<char>, Seq<char>)> {
    entries.map_values(|e: (String, String)| (e.0@, e.1@))
}

/// The value stored for a property.
pub open spec fn get(entries: Seq<(Seq<char>, Seq<char>)>, p: XmpProperty) -> Option<Seq<char>> {
    lookup(entries, p.spec_name())
}

/// The properties of an icon as kept in its metadata. The placement values are the
/// decimal text of floating point numbers, and the folder image is its JSON text.
pub struct XmpProperties {
    pub x_val: String,
    pub y_val: String,
    pub zoom_val: String,
    pub monochrome_toggle: bool,
    pub monochrome_color: Option<Rgb8>,
    pub monochrome_default: bool,
    pub monochrome_invert: bool,
    pub monochrome_threshold_val: u8,
    pub top_image_hash: Option<u64>,
    pub bottom_image_type: String,
    pub default: bool,
}

/// The properties of an icon as plain values.
pub struct XmpView {
    pub x_val: Seq<char>,
    pub y_val: Seq<char>,
    pub zoom_val: Seq<char>,
    pub monochrome_toggle: bool,
    pub monochrome_color: Option<Rgb8>,
    pub monochrome_default: bool,
    pub monochrome_invert: bool,
    pub monochrome_threshold_val: u8,
    pub top_image_hash: Option<u64>,
    pub bottom_image_type: Seq<char>,
    pub default: bool,
}

impl View for XmpProperties {
    type V = XmpView;

    open spec fn view(&self) -> XmpView {
        XmpView {
            x_val: self.x_val@,
            y_val: self.y_val@,
            zoom_val: self.zoom_val@,
            monochrome_toggle: self.monochrome_toggle,
            monochrome_color: self.monochrome_color,
            monochrome_default: self.monochrome_default,
            monochrome_invert: self.monochrome_invert,
            monochrome_threshold_val: self.monochrome_threshold_val,
            top_image_hash: self.top_image_hash,
            bottom_image_type: self.bottom_image_type@,
            default: self.default,
        }
    }
}

/// A property that holds a boolean: missing, not a boolean, or its value.
pub open spec fn read_bool(e: Seq<(Seq<char>, Seq<char>)>, p: XmpProperty) -> Result<bool, PropertiesError> {
    match get(e, p) {
        None => Err(PropertiesError::MissingProperty(p)),
        Some(v) => match parse_bool(v) {
            Some(b) => Ok(b),
            None => Err(PropertiesError::InvalidProperty(p)),
        },
    }
}

/// A property that holds a byte: missing, not a byte, or its value.
pub open spec fn read_u8(e: Seq<(Seq<char>, Seq<char>)>, p: XmpProperty) -> Result<u8, PropertiesError> {
    match get(e, p) {
        None => Err(PropertiesError::MissingProperty(p)),
        Some(v) => match parse_unsigned(v, 255) {
            Some(b) => Ok(b as u8),
            None => Err(PropertiesError::InvalidProperty(p)),
        },
    }
}

/// What reading the metadata gives. The properties are read in the order x, y,
/// zoom, monochrome switch, (the colour channels when the switch is on), default
/// colour, inversion, threshold, hash, folder image, default flag; the first one
/// that is missing or invalid is the error. The hash is optional and reads as zero
/// when it is not a number; the default flag is optional and true when missing.
pub open spec fn spec_read(e: Seq<(Seq<char>, Seq<char>)>) -> Result<XmpView, PropertiesError> {
    if get(e, XmpProperty::XVal) is None {
        Err(PropertiesError::MissingProperty(XmpProperty::XVal))
    } else if get(e, XmpProperty::YVal) is None {
        Err(PropertiesError::MissingProperty(XmpProperty::YVal))
    } else if get(e, XmpProperty::ZoomVal) is None {
        Err(PropertiesError::MissingProperty(XmpProperty::ZoomVal))
    } else if read_bool(e, XmpProperty::MonochromeToggle) is Err {
        Err(read_bool(e, XmpProperty::MonochromeToggle)->Err_0)
    } else if read_bool(e, XmpProperty::MonochromeToggle)->Ok_0 && read_u8(e, XmpProperty::MonochromeRed) is Err {
        Err(read_u8(e, XmpProperty::MonochromeRed)->Err_0)
    } else if read_bool(e, XmpProperty::MonochromeToggle)->Ok_0 && read_u8(e, XmpProperty::MonochromeGreen) is Err {
        Err(read_u8(e, XmpProperty::MonochromeGreen)->Err_0)
    } else if read_bool(e, XmpProperty::MonochromeToggle)->Ok_0 && read_u8(e, XmpProperty::MonochromeBlue) is Err {
        Err(read_u8(e, XmpProperty::MonochromeBlue)->Err_0)
    } else if read_bool(e, XmpProperty::MonochromeDefault) is Err {
        Err(read_bool(e, XmpProperty::MonochromeDefault)->Err_0)
    } else if read_bool(e, XmpProperty::MonochromeInvert) is Err {
        Err(read_bool(e, XmpProperty::MonochromeInvert)->Err_0)
    } else if read_u8(e, XmpProperty::MonochromeThreshold) is Err {
        Err(read_u8(e, XmpProperty::MonochromeThreshold)->Err_0)
    } else if get(e, XmpProperty::BottomImageType) is None {
        Err(PropertiesError::MissingProperty(XmpProperty::BottomImageType))
    } else if get(e, XmpProperty::Default) is Some && parse_bool(get(e, XmpProperty::Default)->0) is None {
        Err(PropertiesError::InvalidProperty(XmpProperty::Default))
    } else {
        let toggle = read_bool(e, XmpProperty::MonochromeToggle)->Ok_0;
        Ok(
            XmpView {
                x_val: get(e, XmpProperty::XVal)->0,
                y_val: get(e, XmpProperty::YVal)->0,
                zoom_val: get(e, XmpProperty::ZoomVal)->0,
                monochrome_toggle: toggle,
                monochrome_color: if toggle {
                    Some(
                        Rgb8 {
                            r: read_u8(e, XmpProperty::MonochromeRed)->Ok_0,
                            g: read_u8(e, XmpProperty::MonochromeGreen)->Ok_0,
                            b: read_u8(e, XmpProperty::MonochromeBlue)->Ok_0,
                        },
                    )
                } else {
                    None
                },
                monochrome_default: read_bool(e, XmpProperty::MonochromeDefault)->Ok_0,
                monochrome_invert: read_bool(e, XmpProperty::MonochromeInvert)->Ok_0,
                monochrome_threshold_val: read_u8(e, XmpProperty::MonochromeThreshold)->Ok_0,
                top_image_hash: match get(e, XmpProperty::TopImageHash) {
                    Some(v) => Some(
                        match parse_unsigned(v, u64::MAX as nat) {
                            Some(h) => h as u64,
                            None => 0,
                        },
                    ),
                    None => None,
                },
                bottom_image_type: get(e, XmpProperty::BottomImageType)->0,
                default: match get(e, XmpProperty::Default) {
                    Some(v) => parse_bool(v)->0,
                    None => true,
                },
            },
        )
    }
}

fn get_exec(entries: &Vec<(String, String)>, p: XmpProperty) -> (r: Option<String>)
    ensures
        match get(entries_view(entries@), p) {
            Some(v) => r matches Some(s) && s@ == v,
            None => r is None,
        },
{
    let name = p.name();
    let ghost e = entries_view(entries@);
    assert(e.skip(0) =~= e);
    let mut i: usize = 0;
    while i < entries.len()
        invariant
            name@ == p.spec_name(),
            e == entries_view(entries@),
            i <= entries.len(),
            get(e, p) == lookup(e.skip(i as int), p.spec_name()),
        decreases entries.len() - i,
    {
        let ghost rest = e.skip(i as int);
        assert(rest[0] == (entries@[i as int].0@, entries@[i as int].1@));
        assert(rest.drop_first() =~= e.skip(i + 1));
        if str_eq(entries[i].0.as_str(), name.as_str()) {
            return Some(entries[i].1.clone());
        }
        i = i + 1;
    }
    None
}

fn read_bool_exec(entries: &Vec<(String, String)>, p: XmpProperty) -> (r: Result<bool, PropertiesError>)
    ensures
        r == read_bool(entries_view(entries@), p),
{
    match get_exec(entries, p) {
        None => Err(PropertiesError::MissingProperty(p)),
        Some(v) => match parse_bool_exec(&chars_of(v.as_str())) {
            Some(b) => Ok(b),
            None => Err(PropertiesError::InvalidProperty(p)),
        },
    }
}

fn read_u8_exec(entries: &Vec<(String, String)>, p: XmpProperty) -> (r: Result<u8, PropertiesError>)
    ensures
        r == read_u8(entries_view(entries@), p),
{
    match get_exec(entries, p) {
        None => Err(PropertiesError::MissingProperty(p)),
        Some(v) => match parse_u8(&chars_of(v.as_str())) {
            Some(b) => Ok(b),
            None => Err(PropertiesError::InvalidProperty(p)),
        },
    }
}

impl XmpProperties {
    /// Reads the properties of an icon from its metadata entries.
    pub fn from_xmp_data(entries: &Vec<(String, String)>) -> (r: Result<XmpProperties, PropertiesError>)
        ensures
            match spec_read(entries_view(entries@)) {
                Ok(v) => r matches Ok(p) && p@ == v,
                Err(e) => r == Err::<XmpProperties, PropertiesError>(e),
            },
    {
        let x_val = match get_exec(entries, XmpProperty::XVal) {
            Some(v) => v,
            None => {
                return Err(PropertiesError::MissingProperty(XmpProperty::XVal));
            },
        };
        let y_val = match get_exec(entries, XmpProperty::YVal) {
            Some(v) => v,
            None => {
                return Err(PropertiesError::MissingProperty(XmpProperty::YVal));
            },
        };
        let zoom_val = match get_exec(entries, XmpProperty::ZoomVal) {
            Some(v) => v,
            None => {
                return Err(PropertiesError::MissingProperty(XmpProperty::ZoomVal));
            },
        };
        let monochrome_toggle = read_bool_exec(entries, XmpProperty::MonochromeToggle)?;
        let monochrome_color = if monochrome_toggle {
            let r = read_u8_exec(entries, XmpProperty::MonochromeRed)?;
            let g = read_u8_exec(entries, XmpProperty::MonochromeGreen)?;
            let b = read_u8_exec(entries, XmpProperty::MonochromeBlue)?;
            Some(Rgb8 { r, g, b })
        } else {
            None
        };
        let monochrome_default = read_bool_exec(entries, XmpProperty::MonochromeDefault)?;
        let monochrome_invert = read_bool_exec(entries, XmpProperty::MonochromeInvert)?;
        let monochrome_threshold_val = read_u8_exec(entries, XmpProperty::MonochromeThreshold)?;
        let top_image_hash = match get_exec(entries, XmpProperty::TopImageHash) {
            Some(v) => Some(
                match parse_u64(&chars_of(v.as_str())) {
                    Some(h) => h,
                    None => 0,
                },
            ),
            None => None,
        };
        let bottom_image_type = match get_exec(entries, XmpProperty::BottomImageType) {
            Some(v) => v,
            None => {
                return Err(PropertiesError::MissingProperty(XmpProperty::BottomImageType));
            },
        };
        let default = match get_exec(entries, XmpProperty::Default) {
            Some(v) => match parse_bool_exec(&chars_of(v.as_str())) {
                Some(b) => b,
                None => {
                    return Err(PropertiesError::InvalidProperty(XmpProperty::Default));
                },
            },
            None => true,
        };
        Ok(
            XmpProperties {
                x_val,
                y_val,
                zoom_val,
                monochrome_toggle,
                monochrome_color,
                monochrome_default,
                monochrome_invert,
                monochrome_threshold_val,
                top_image_hash,
                bottom_image_type,
                default,
            },
        )
    }
}

/// The entries written for an icon, each with the property it stores. The red
/// channel is stored as `monochrome_red`, the green channel as `monochrome_blue` and
/// the blue channel as `monochrome_green`; the default flag is not written.
pub open spec fn spec_written(p: XmpView) -> Seq<(XmpProperty, Seq<char>)> {
    let head = seq![
        (XmpProperty::XVal, p.x_val),
        (XmpProperty::YVal, p.y_val),
        (XmpProperty::ZoomVal, p.zoom_val),
        (XmpProperty::MonochromeToggle, bool_text(p.monochrome_toggle)),
    ];
    let colors = match p.monochrome_color {
        Some(c) => seq![
            (XmpProperty::MonochromeRed, decimal(c.r as nat)),
            (XmpProperty::MonochromeBlue, decimal(c.g as nat)),
            (XmpProperty::MonochromeGreen, decimal(c.b as nat)),
        ],
        None => Seq::<(XmpProperty, Seq<char>)>::empty(),
    };
    let middle = seq![
        (XmpProperty::MonochromeDefault, bool_text(p.monochrome_default)),
        (XmpProperty::MonochromeInvert, bool_text(p.monochrome_invert)),
        (XmpProperty::MonochromeThreshold, decimal(p.monochrome_threshold_val as nat)),
    ];
    let hash = match p.top_image_hash {
        Some(h) => seq![(XmpProperty::TopImageHash, decimal(h as nat))],
        None => Seq::<(XmpProperty, Seq<char>)>::empty(),
    };
    head + colors + middle + hash + seq![(XmpProperty::BottomImageType, p.bottom_image_type)]
}

/// Entries with the names of their properties.
pub open spec fn named(l: Seq<(XmpProperty, Seq<char>)>) -> Seq<(Seq<char>, Seq<char>)> {
    l.map_values(|x: (XmpProperty, Seq<char>)| (x.0.spec_name(), x.1))
}

/// The value of the first entry for a property.
pub open spec fn find(l: Seq<(XmpProperty, Seq<char>)>, p: XmpProperty) -> Option<Seq<char>>
    decreases l.len(),
{
    if l.len() == 0 {
        None
    } else if l[0].0 == p {
        Some(l[0].1)
    } else {
        find(l.drop_first(), p)
    }
}

proof fn lemma_lookup_named(l: Seq<(XmpProperty, Seq<char>)>, p: XmpProperty)
    ensures
        lookup(named(l), p.spec_name()) == find(l, p),
    decreases l.len(),
{
    if l.len() > 0 {
        assert(named(l)[0] == (l[0].0.spec_name(), l[0].1));
        assert(named(l).drop_first() =~= named(l.drop_first()));
        if l[0].0 != p {
            lemma_names_distinct(l[0].0, p);
        }
        lemma_lookup_named(l.drop_first(), p);
    }
}

proof fn lemma_find_append(a: Seq<(XmpProperty, Seq<char>)>, b: Seq<(XmpProperty, Seq<char>)>, p: XmpProperty)
    ensures
        find(a + b, p) == (if find(a, p) is Some {
            find(a, p)
        } else {
            find(b, p)
        }),
    decreases a.len(),
{
    if a.len() == 0 {
        assert(a + b =~= b);
    } else {
        assert((a + b)[0] == a[0]);
        assert((a + b).drop_first() =~= a.drop_first() + b);
        lemma_find_append(a.drop_first(), b, p);
    }
}

/// The metadata entries written for an icon.
pub fn add_image_metadata(properties: &XmpProperties) -> (entries: Vec<(String, String)>)
    ensures
        entries_view(entries@) == named(spec_written(properties@)),
{
    let mut entries: Vec<(String, String)> = Vec::new();
    entries.push((XmpProperty::XVal.name(), properties.x_val.clone()));
    entries.push((XmpProperty::YVal.name(), properties.y_val.clone()));
    entries.push((XmpProperty::ZoomVal.name(), properties.zoom_val.clone()));
    entries.push(
        (
            XmpProperty::MonochromeToggle.name(),
            string_of(&bool_text_exec(properties.monochrome_toggle)),
        ),
    );
    if let Some(c) = properties.monochrome_color {
        entries.push((XmpProperty::MonochromeRed.name(), string_of(&decimal_exec(c.r as u64))));
        entries.push((XmpProperty::MonochromeBlue.name(), string_of(&decimal_exec(c.g as u64))));
        entries.push((XmpProperty::MonochromeGreen.name(), string_of(&decimal_exec(c.b as u64))));
    }
    entries.push(
        (
            XmpProperty::MonochromeDefault.name(),
            string_of(&bool_text_exec(properties.monochrome_default)),
        ),
    );
    entries.push(
        (
            XmpProperty::MonochromeInvert.name(),
            string_of(&bool_text_exec(properties.monochrome_invert)),
        ),
    );
    entries.push(
        (
            XmpProperty::MonochromeThreshold.name(),
            string_of(&decimal_exec(properties.monochrome_threshold_val as u64)),
        ),
    );
    if let Some(h) = properties.top_image_hash {
        entries.push((XmpProperty::TopImageHash.name(), string_of(&decimal_exec(h))));
    }
    entries.push((XmpProperty::BottomImageType.name(), properties.bottom_image_type.clone()));
    assert(entries_view(entries@) =~= named(spec_written(properties@)));
    entries
}

/// What is read back from the entries written for an icon: every property comes
/// back, except that the green and blue channels trade places, and the default flag,
/// which is not written, reads as true. This holds for properties whose colour is
/// present exactly when the monochrome switch is on, as the window makes them.
pub proof fn law_metadata_round_trip(p: XmpView)
    requires
        p.monochrome_toggle == p.monochrome_color is Some,
    ensures
        spec_read(named(spec_written(p))) == Ok::<XmpView, PropertiesError>(
            XmpView {
                monochrome_color: match p.monochrome_color {
                    Some(c) => Some(Rgb8 { r: c.r, g: c.b, b: c.g }),
                    None => None,
                },
                default: true,
                ..p
            },
        ),
{
    let l = spec_written(p);
    let e = named(l);
    assert forall|q: XmpProperty| #[trigger] get(e, q) == find(l, q) by {
        lemma_lookup_named(l, q);
    }
    let head = seq![
        (XmpProperty::XVal, p.x_val),
        (XmpProperty::YVal, p.y_val),
        (XmpProperty::ZoomVal, p.zoom_val),
        (XmpProperty::MonochromeToggle, bool_text(p.monochrome_toggle)),
    ];
    let colors = match p.monochrome_color {
        Some(c) => seq![
            (XmpProperty::MonochromeRed, decimal(c.r as nat)),
            (XmpProperty::MonochromeBlue, decimal(c.g as nat)),
            (XmpProperty::MonochromeGreen, decimal(c.b as nat)),
        ],
        None => Seq::<(XmpProperty, Seq<char>)>::empty(),
    };
    let middle = seq![
        (XmpProperty::MonochromeDefault, bool_text(p.monochrome_default)),
        (XmpProperty::MonochromeInvert, bool_text(p.monochrome_invert)),
        (XmpProperty::MonochromeThreshold, decimal(p.monochrome_threshold_val as nat)),
    ];
    let hash = match p.top_image_hash {
        Some(h) => seq![(XmpProperty::TopImageHash, decimal(h as nat))],
        None => Seq::<(XmpProperty, Seq<char>)>::empty(),
    };
    let tail = seq![(XmpProperty::BottomImageType, p.bottom_image_type)];
    reveal_with_fuel(find, 5);
    assert forall|q: XmpProperty| #[trigger] find(l, q) == (if find(head, q) is Some {
        find(head, q)
    } else if find(colors, q) is Some {
        find(colors, q)
    } else if find(middle, q) is Some {
        find(middle, q)
    } else if find(hash, q) is Some {
        find(hash, q)
    } else {
        find(tail, q)
    }) by {
        lemma_find_append(head + colors + middle + hash, tail, q);
        lemma_find_append(head + colors + middle, hash, q);
        lemma_find_append(head + colors, middle, q);
        lemma_find_append(head, colors, q);
    }
    lemma_parse_decimal(p.monochrome_threshold_val as nat, 255);
    if let Some(c) = p.monochrome_color {
        lemma_parse_decimal(c.r as nat, 255);
        lemma_parse_decimal(c.g as nat, 255);
        lemma_parse_decimal(c.b as nat, 255);
    }
    if let Some(h) = p.top_image_hash {
        lemma_parse_decimal(h as nat, u64::MAX as nat);
    }
    assert(parse_bool(bool_text(p.monochrome_toggle)) == Some(p.monochrome_toggle));
    assert(parse_bool(bool_text(p.monochrome_default)) == Some(p.monochrome_default));
    assert(parse_bool(bool_text(p.monochrome_invert)) == Some(p.monochrome_invert));
}

} // verus!
