//! A plain model of the document data the check reads: the global-settings
//! property bag and the typed attribute values its properties carry, plus
//! the extraction of a declared basis from it.
//!
//! An outer layer fills this model from a parsed document; the check never
//! touches the parser itself.

use vstd::prelude::*;
use vstd::string::StringExecFns;
use crate::axis::Axis;
use crate::axis::CoordinateAxis;

verus! {

/// One attribute value of a property, tagged with its type. The check reads
/// only 32-bit integers; every other attribute type is folded into `Other`
/// and treated exactly like an absent value.
#[derive(Clone, Copy, Debug, PartialEq, Eq, Structural)]
pub enum AttributeValue {
    I32(i32),
    Other,
}

/// One property of the global settings: its ordered attribute values.
pub struct Property {
    pub values: Vec<AttributeValue>,
}

/// The global-settings property bag: named properties in document order.
pub struct GlobalSettings {
    pub properties: Vec<(String, Property)>,
}

/// A document as this check sees it: global settings, when the document has
/// them at all.
pub struct Document {
    pub global_settings: Option<GlobalSettings>,
}

/// The first property of `entries` whose name is `name`, if any.
pub open spec fn spec_lookup(entries: Seq<(String, Property)>, name: Seq<char>) -> Option<
    Property,
>
    decreases entries.len(),
{
    if entries.len() == 0 {
        None
    } else if entries[0].0@ == name {
        Some(entries[0].1)
    } else {
        spec_lookup(entries.drop_first(), name)
    }
}

/// The property named `name` in the global settings, if any.
pub open spec fn spec_get_property(gs: GlobalSettings, name: Seq<char>) -> Option<Property> {
    spec_lookup(gs.properties@, name)
}

/// The first attribute value of a property, when it is a 32-bit integer;
/// nothing when the property has no values or its first value has another
/// type.
pub open spec fn spec_first_i32(p: Property) -> Option<i32> {
    if p.values@.len() > 0 {
        match p.values@[0] {
            AttributeValue::I32(v) => Some(v),
            AttributeValue::Other => None,
        }
    } else {
        None
    }
}

/// The axis encoded by an axis-index value and a sign value: the index
/// selects the dimension (0 is X, 1 is Y, 2 is Z; anything else is
/// unrecognized), and the sign, narrowed to eight bits, becomes that
/// dimension's component. The narrowed sign is taken verbatim, with no
/// restriction to plus or minus one.
pub open spec fn spec_axis_from(index: i32, sign: i32) -> Option<Axis> {
    if index == 0 {
        Some(Axis { x: sign as i8, y: 0, z: 0 })
    } else if index == 1 {
        Some(Axis { x: 0, y: sign as i8, z: 0 })
    } else if index == 2 {
        Some(Axis { x: 0, y: 0, z: sign as i8 })
    } else {
        None
    }
}

/// The axis the global settings declare under the base name `name`: the
/// property `name` must hold the axis index and the property `name + "Sign"`
/// the sign, both as 32-bit integers; any missing or differently typed piece,
/// or an unrecognized index, yields nothing.
pub open spec fn spec_get_axis(gs: GlobalSettings, name: Seq<char>) -> Option<Axis> {
    match spec_get_property(gs, name) {
        None => None,
        Some(p) => match spec_first_i32(p) {
            None => None,
            Some(index) => match spec_get_property(gs, name + "Sign"@) {
                None => None,
                Some(ps) => match spec_first_i32(ps) {
                    None => None,
                    Some(sign) => spec_axis_from(index, sign),
                },
            },
        },
    }
}

/// The full basis a document declares: all three axes extracted from its
/// global settings, or nothing as soon as the settings are absent or any one
/// extraction fails. No partial basis exists.
pub open spec fn spec_coordinate_axis(doc: Document) -> Option<CoordinateAxis> {
    match doc.global_settings {
        None => None,
        Some(gs) => match spec_get_axis(gs, "UpAxis"@) {
            None => None,
            Some(up) => match spec_get_axis(gs, "FrontAxis"@) {
                None => None,
                Some(front) => match spec_get_axis(gs, "CoordAxis"@) {
                    None => None,
                    Some(coord) => Some(CoordinateAxis { up, front, coord }),
                },
            },
        },
    }
}

impl GlobalSettings {
    /// Finds the first property named `name`.
    pub fn get_property(&self, name: &String) -> (r: Option<&Property>)
        ensures
            match r {
                Some(p) => spec_get_property(*self, name@) == Some(*p),
                None => spec_get_property(*self, name@) is None,
            },
    {
        let n = self.properties.len();
        let mut i: usize = 0;
        proof {
            assert(self.properties@.skip(0) =~= self.properties@);
        }
        while i < n
            invariant
                i <= n,
                n == self.properties@.len(),
                spec_lookup(self.properties@, name@) == spec_lookup(
                    self.properties@.skip(i as int),
                    name@,
                ),
            decreases n - i,
        {
            proof {
                assert(self.properties@.skip(i as int).drop_first() =~= self.properties@.skip(
                    i as int + 1,
                ));
            }
            if self.properties[i].0 == *name {
                return Some(&self.properties[i].1);
            }
            i = i + 1;
        }
        None
    }
}

impl Property {
    /// The first attribute value, if the property has any.
    pub fn first_value(&self) -> (r: Option<AttributeValue>)
        ensures
            self.values@.len() > 0 ==> r == Some(self.values@[0]),
            self.values@.len() == 0 ==> r is None,
    {
        if self.values.len() > 0 {
            Some(self.values[0])
        } else {
            None
        }
    }
}

/// Reads the axis declared under the base name `name` from the global
/// settings, as [`spec_get_axis`] describes it.
pub fn get_axis(global_settings: &GlobalSettings, name: &str) -> (r: Option<Axis>)
    ensures
        r == spec_get_axis(*global_settings, name@),
{
    let base_name = name.to_owned();
    let index_prop = match global_settings.get_property(&base_name) {
        Some(p) => p,
        None => {
            return None;
        },
    };
    let index = match index_prop.first_value() {
        Some(AttributeValue::I32(v)) => v,
        _ => {
            return None;
        },
    };
    let sign_name = name.to_owned().concat("Sign");
    let sign_prop = match global_settings.get_property(&sign_name) {
        Some(p) => p,
        None => {
            return None;
        },
    };
    let sign = match sign_prop.first_value() {
        Some(AttributeValue::I32(v)) => v,
        _ => {
            return None;
        },
    };
    let component: i8 = #[verifier::truncate] (sign as i8);
    match index {
        0 => Some(Axis { x: component, y: 0, z: 0 }),
        1 => Some(Axis { x: 0, y: component, z: 0 }),
        2 => Some(Axis { x: 0, y: 0, z: component }),
        _ => None,
    }
}

/// Extracts the full declared basis from a document: the `UpAxis`,
/// `FrontAxis` and `CoordAxis` declarations with their signs, or nothing as
/// soon as the global settings are absent or any one axis cannot be read.
pub fn get_coordinate_axis(doc: &Document) -> (r: Option<CoordinateAxis>)
    ensures
        r == spec_coordinate_axis(*doc),
{
    let gs = match &doc.global_settings {
        Some(g) => g,
        None => {
            return None;
        },
    };
    let up = match get_axis(gs, "UpAxis") {
        Some(a) => a,
        None => {
            return None;
        },
    };
    let front = match get_axis(gs, "FrontAxis") {
        Some(a) => a,
        None => {
            return None;
        },
    };
    let coord = match get_axis(gs, "CoordAxis") {
        Some(a) => a,
        None => {
            return None;
        },
    };
    Some(CoordinateAxis { up, front, coord })
}

/// A missing sign property makes the whole axis absent: when the global
/// settings hold no property named `name + "Sign"`, no axis is extracted for
/// `name`, whatever the other properties hold.
pub proof fn lemma_missing_sign_yields_absence(gs: GlobalSettings, name: Seq<char>)
    requires
        spec_get_property(gs, name + "Sign"@) is None,
    ensures
        spec_get_axis(gs, name) is None,
{
}

/// An unrecognized axis index makes the axis absent: when the property named
/// `name` holds a first 32-bit integer outside 0, 1 and 2, no axis is
/// extracted for `name`.
pub proof fn lemma_invalid_index_yields_absence(gs: GlobalSettings, name: Seq<char>, index: i32)
    requires
        spec_get_property(gs, name) matches Some(p) && spec_first_i32(p) == Some(index),
        index != 0 && index != 1 && index != 2,
    ensures
        spec_get_axis(gs, name) is None,
{
}

/// No partial basis: if the global settings are absent, or any one of the
/// three axis extractions fails, the whole basis extraction fails, however
/// many of the other extractions would succeed.
pub proof fn lemma_no_partial_basis(doc: Document)
    requires
        doc.global_settings is None || (doc.global_settings matches Some(gs) && (spec_get_axis(
            gs,
            "UpAxis"@,
        ) is None || spec_get_axis(gs, "FrontAxis"@) is None || spec_get_axis(
            gs,
            "CoordAxis"@,
        ) is None)),
    ensures
        spec_coordinate_axis(doc) is None,
{
}

} // verus!
