//! The typed axis model: a signed unit axis and the three-axis basis a
//! document declares, together with their rendering as signed letter pairs.

use vstd::prelude::*;
use vstd::string::StringExecFns;

verus! {

/// One semantic axis of a document's orientation convention, stored as a
/// vector with integer components. A meaningful value points along exactly
/// one coordinate direction with magnitude one (see [`Axis::is_unit`]);
/// extraction can produce other values, which the rendering functions reject.
#[derive(Clone, Copy, Debug, PartialEq, Eq, Structural)]
pub struct Axis {
    pub x: i8,
    pub y: i8,
    pub z: i8,
}

impl Axis {
    /// The six meaningful axis values: exactly one component is non-zero,
    /// and that component is +1 or -1.
    pub open spec fn is_unit(self) -> bool {
        ||| self == (Axis { x: 1, y: 0, z: 0 })
        ||| self == (Axis { x: -1i8, y: 0, z: 0 })
        ||| self == (Axis { x: 0, y: 1, z: 0 })
        ||| self == (Axis { x: 0, y: -1i8, z: 0 })
        ||| self == (Axis { x: 0, y: 0, z: 1 })
        ||| self == (Axis { x: 0, y: 0, z: -1i8 })
    }

    /// Runtime test for [`Axis::is_unit`], for callers outside verified code
    /// that must check an axis before rendering it.
    pub fn is_valid(&self) -> (r: bool)
        ensures
            r == self.is_unit(),
    {
        (self.x == 1 || self.x == -1) && self.y == 0 && self.z == 0
            || self.x == 0 && (self.y == 1 || self.y == -1) && self.z == 0
            || self.x == 0 && self.y == 0 && (self.z == 1 || self.z == -1)
    }
}

/// The letter pair each unit axis renders to: a sign followed by the name of
/// the non-zero dimension.
pub open spec fn letter_of(a: Axis) -> Seq<char> {
    if a == (Axis { x: 1, y: 0, z: 0 }) {
        "+X"@
    } else if a == (Axis { x: -1i8, y: 0, z: 0 }) {
        "-X"@
    } else if a == (Axis { x: 0, y: 1, z: 0 }) {
        "+Y"@
    } else if a == (Axis { x: 0, y: -1i8, z: 0 }) {
        "-Y"@
    } else if a == (Axis { x: 0, y: 0, z: 1 }) {
        "+Z"@
    } else if a == (Axis { x: 0, y: 0, z: -1i8 }) {
        "-Z"@
    } else {
        Seq::<char>::empty()
    }
}

/// The axis a letter pair denotes, or nothing when the text is not one of the
/// six valid letter pairs.
pub open spec fn parse_letters_spec(s: Seq<char>) -> Option<Axis> {
    if s == "+X"@ {
        Some(Axis { x: 1, y: 0, z: 0 })
    } else if s == "-X"@ {
        Some(Axis { x: -1i8, y: 0, z: 0 })
    } else if s == "+Y"@ {
        Some(Axis { x: 0, y: 1, z: 0 })
    } else if s == "-Y"@ {
        Some(Axis { x: 0, y: -1i8, z: 0 })
    } else if s == "+Z"@ {
        Some(Axis { x: 0, y: 0, z: 1 })
    } else if s == "-Z"@ {
        Some(Axis { x: 0, y: 0, z: -1i8 })
    } else {
        None
    }
}

/// Renders a unit axis as its signed letter pair, one of `+X`, `-X`, `+Y`,
/// `-Y`, `+Z`, `-Z`. Defined only over the six unit values; any other value
/// is an internal inconsistency, not a user-facing condition.
pub fn axis_letter(v: &Axis) -> (r: String)
    requires
        v.is_unit(),
    ensures
        r@ == letter_of(*v),
{
    if v.x == 1 && v.y == 0 && v.z == 0 {
        String::from_str("+X")
    } else if v.x == -1 && v.y == 0 && v.z == 0 {
        String::from_str("-X")
    } else if v.x == 0 && v.y == 1 && v.z == 0 {
        String::from_str("+Y")
    } else if v.x == 0 && v.y == -1 && v.z == 0 {
        String::from_str("-Y")
    } else if v.x == 0 && v.y == 0 && v.z == 1 {
        String::from_str("+Z")
    } else if v.x == 0 && v.y == 0 && v.z == -1 {
        String::from_str("-Z")
    } else {
        unreached()
    }
}

/// Parses a signed letter pair back to its axis; any other input yields
/// nothing.
pub fn parse_letters(s: &str) -> (r: Option<Axis>)
    ensures
        r == parse_letters_spec(s@),
{
    let owned = s.to_owned();
    if owned == String::from_str("+X") {
        Some(Axis { x: 1, y: 0, z: 0 })
    } else if owned == String::from_str("-X") {
        Some(Axis { x: -1, y: 0, z: 0 })
    } else if owned == String::from_str("+Y") {
        Some(Axis { x: 0, y: 1, z: 0 })
    } else if owned == String::from_str("-Y") {
        Some(Axis { x: 0, y: -1, z: 0 })
    } else if owned == String::from_str("+Z") {
        Some(Axis { x: 0, y: 0, z: 1 })
    } else if owned == String::from_str("-Z") {
        Some(Axis { x: 0, y: 0, z: -1 })
    } else {
        None
    }
}

/// Rendering a unit axis and parsing the result gives the axis back: the
/// letter pairs are a faithful code for the six unit values.
pub proof fn lemma_letter_round_trip(a: Axis)
    requires
        a.is_unit(),
    ensures
        parse_letters_spec(letter_of(a)) == Some(a),
{
    reveal_strlit("+X");
    reveal_strlit("-X");
    reveal_strlit("+Y");
    reveal_strlit("-Y");
    reveal_strlit("+Z");
    reveal_strlit("-Z");
    assert("+X"@[0] == '+' && "+X"@[1] == 'X');
    assert("-X"@[0] == '-' && "-X"@[1] == 'X');
    assert("+Y"@[0] == '+' && "+Y"@[1] == 'Y');
    assert("-Y"@[0] == '-' && "-Y"@[1] == 'Y');
    assert("+Z"@[0] == '+' && "+Z"@[1] == 'Z');
    assert("-Z"@[0] == '-' && "-Z"@[1] == 'Z');
}

/// Only renderings of unit axes parse: whenever a letter pair parses to an
/// axis, that axis is a unit value and renders back to exactly that text, so
/// no other axis value and no other text takes part in the code.
pub proof fn lemma_parse_is_inverse_of_render(s: Seq<char>, a: Axis)
    requires
        parse_letters_spec(s) == Some(a),
    ensures
        a.is_unit(),
        letter_of(a) == s,
{
    reveal_strlit("+X");
    reveal_strlit("-X");
    reveal_strlit("+Y");
    reveal_strlit("-Y");
    reveal_strlit("+Z");
    reveal_strlit("-Z");
}

/// The full orientation convention a document declares or an application is
/// expected to use: the up, front and dominant coordinate axes. The three
/// axes are compared only for structural equality; no orthogonality is
/// claimed or checked.
#[derive(Clone, Copy, Debug, PartialEq, Eq, Structural)]
pub struct CoordinateAxis {
    pub up: Axis,
    pub front: Axis,
    pub coord: Axis,
}

/// The triplet rendering of a basis, front axis first, as the diagnostic
/// message shows it.
pub open spec fn triplet_of(b: CoordinateAxis) -> Seq<char> {
    "Front:"@ + letter_of(b.front) + ",Up:"@ + letter_of(b.up) + ",Coord:"@ + letter_of(b.coord)
}

impl CoordinateAxis {
    /// All three axes are meaningful unit values, so the basis can be
    /// rendered.
    pub open spec fn wf(self) -> bool {
        self.up.is_unit() && self.front.is_unit() && self.coord.is_unit()
    }

    /// Runtime test for [`CoordinateAxis::wf`], for callers outside verified
    /// code that must check a basis before asking for a diagnostic.
    pub fn is_well_formed(&self) -> (r: bool)
        ensures
            r == self.wf(),
    {
        self.up.is_valid() && self.front.is_valid() && self.coord.is_valid()
    }

    /// Renders the basis as `Front:<pair>,Up:<pair>,Coord:<pair>`.
    pub fn display_triplet(&self) -> (r: String)
        requires
            self.wf(),
        ensures
            r@ == triplet_of(*self),
    {
        let front = axis_letter(&self.front);
        let up = axis_letter(&self.up);
        let coord = axis_letter(&self.coord);
        let mut r = String::from_str("Front:");
        r.append(front.as_str());
        r.append(",Up:");
        r.append(up.as_str());
        r.append(",Coord:");
        r.append(coord.as_str());
        proof {
            assert(r@ =~= triplet_of(*self));
        }
        r
    }
}

} // verus!
