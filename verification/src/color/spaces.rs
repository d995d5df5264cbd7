//! The colour spaces a profile can name.

use vstd::prelude::*;
use crate::text::str_eq;

verus! {

/// Tag of a colour space. `Invalid` is the value of a profile that names none.
#[derive(Debug, Clone, Copy, PartialEq, Eq, Structural)]
pub enum ColorSpace {
    Invalid,
    Unspecified,
    Reserved,
    Rgb,
    Bt601,
    Bt709,
    Bt2020Cl,
    Bt2020Ncl,
    Fcc,
    Bt470bg,
    Smpte170m,
    Smpte240m,
    Smpte2085,
    Ycgco,
}

impl Default for ColorSpace {
    fn default() -> (space: Self)
        ensures
            space == ColorSpace::Invalid,
    {
        ColorSpace::Invalid
    }
}

impl ColorSpace {
    /// The tag name by which a preset definition selects this colour space.
    pub open spec fn tag(self) -> Seq<char> {
        match self {
            ColorSpace::Invalid => "Invalid"@,
            ColorSpace::Unspecified => "Unspecified"@,
            ColorSpace::Reserved => "Reserved"@,
            ColorSpace::Rgb => "Rgb"@,
            ColorSpace::Bt601 => "Bt601"@,
            ColorSpace::Bt709 => "Bt709"@,
            ColorSpace::Bt2020Cl => "Bt2020Cl"@,
            ColorSpace::Bt2020Ncl => "Bt2020Ncl"@,
            ColorSpace::Fcc => "Fcc"@,
            ColorSpace::Bt470bg => "Bt470bg"@,
            ColorSpace::Smpte170m => "Smpte170m"@,
            ColorSpace::Smpte240m => "Smpte240m"@,
            ColorSpace::Smpte2085 => "Smpte2085"@,
            ColorSpace::Ycgco => "Ycgco"@,
        }
    }

    /// The colour space that a tag name selects, if it selects one.
    pub open spec fn tagged(name: Seq<char>) -> Option<ColorSpace> {
        if exists|space: ColorSpace| space.tag() == name {
            Some(choose|space: ColorSpace| space.tag() == name)
        } else {
            None
        }
    }

    /// No two colour spaces share a tag name.
    pub proof fn lemma_tags_differ(a: ColorSpace, b: ColorSpace)
        requires
            a.tag() == b.tag(),
        ensures
            a == b,
    {
        reveal_strlit("Invalid");
        reveal_strlit("Unspecified");
        reveal_strlit("Reserved");
        reveal_strlit("Rgb");
        reveal_strlit("Bt601");
        reveal_strlit("Bt709");
        reveal_strlit("Bt2020Cl");
        reveal_strlit("Bt2020Ncl");
        reveal_strlit("Fcc");
        reveal_strlit("Bt470bg");
        reveal_strlit("Smpte170m");
        reveal_strlit("Smpte240m");
        reveal_strlit("Smpte2085");
        reveal_strlit("Ycgco");
        let s = a.tag();
        let t = b.tag();
        if a != b {
            assert(s.len() == t.len());
            assert(s[0] == t[0]);
            assert(s[1] == t[1]);
            assert(s[2] == t[2]);
            if s.len() > 4 {
                assert(s[4] == t[4]);
            }
            if s.len() > 6 {
                assert(s[5] == t[5]);
                assert(s[6] == t[6]);
            }
            if s.len() > 7 {
                assert(s[7] == t[7]);
            }
        }
    }

    /// Reads a tag name. The match is exact: case and spelling count.
    pub fn from_tag(name: &str) -> (found: Option<ColorSpace>)
        ensures
            found == ColorSpace::tagged(name@),
            found matches Some(space) ==> space.tag() == name@,
            found is None ==> forall|space: ColorSpace| space.tag() != name@,
    {
        let found = if str_eq(name, "Invalid") {
            Some(ColorSpace::Invalid)
        } else if str_eq(name, "Unspecified") {
            Some(ColorSpace::Unspecified)
        } else if str_eq(name, "Reserved") {
            Some(ColorSpace::Reserved)
        } else if str_eq(name, "Rgb") {
            Some(ColorSpace::Rgb)
        } else if str_eq(name, "Bt601") {
            Some(ColorSpace::Bt601)
        } else if str_eq(name, "Bt709") {
            Some(ColorSpace::Bt709)
        } else if str_eq(name, "Bt2020Cl") {
            Some(ColorSpace::Bt2020Cl)
        } else if str_eq(name, "Bt2020Ncl") {
            Some(ColorSpace::Bt2020Ncl)
        } else if str_eq(name, "Fcc") {
            Some(ColorSpace::Fcc)
        } else if str_eq(name, "Bt470bg") {
            Some(ColorSpace::Bt470bg)
        } else if str_eq(name, "Smpte170m") {
            Some(ColorSpace::Smpte170m)
        } else if str_eq(name, "Smpte240m") {
            Some(ColorSpace::Smpte240m)
        } else if str_eq(name, "Smpte2085") {
            Some(ColorSpace::Smpte2085)
        } else if str_eq(name, "Ycgco") {
            Some(ColorSpace::Ycgco)
        } else {
            None
        };
        proof {
            match found {
                Some(space) => {
                    assert(space.tag() == name@);
                    let chosen = choose|other: ColorSpace| other.tag() == name@;
                    ColorSpace::lemma_tags_differ(chosen, space);
                },
                None => {
                    assert forall|space: ColorSpace| space.tag() != name@ by {
                        match space {
                            ColorSpace::Invalid => {},
                            ColorSpace::Unspecified => {},
                            ColorSpace::Reserved => {},
                            ColorSpace::Rgb => {},
                            ColorSpace::Bt601 => {},
                            ColorSpace::Bt709 => {},
                            ColorSpace::Bt2020Cl => {},
                            ColorSpace::Bt2020Ncl => {},
                            ColorSpace::Fcc => {},
                            ColorSpace::Bt470bg => {},
                            ColorSpace::Smpte170m => {},
                            ColorSpace::Smpte240m => {},
                            ColorSpace::Smpte2085 => {},
                            ColorSpace::Ycgco => {},
                        }
                    }
                },
            }
        }
        found
    }
}

} // verus!
