use vstd::prelude::*;

verus! {

/// The C++ language standard a generated project is written against.
#[derive(Clone, Copy, Debug, PartialEq, Eq, Structural)]
pub enum CppStandard {
    Cpp20,
    Cpp23,
}

/// The number CMake expects for `CMAKE_CXX_STANDARD`.
pub open spec fn version_of(standard: CppStandard) -> Seq<char> {
    match standard {
        CppStandard::Cpp20 => seq!['2', '0'],
        CppStandard::Cpp23 => seq!['2', '3'],
    }
}

/// The name under which the standard is chosen on the command line.
pub open spec fn name_of(standard: CppStandard) -> Seq<char> {
    match standard {
        CppStandard::Cpp20 => seq!['c', 'p', 'p', '2', '0'],
        CppStandard::Cpp23 => seq!['c', 'p', 'p', '2', '3'],
    }
}

impl CppStandard {
    /// The standard's command-line name.
    pub fn to_string(&self) -> (r: String)
        ensures
            r@ == name_of(*self),
    {
        match self {
            CppStandard::Cpp20 => {
                let r = String::from_str("cpp20");
                proof {
                    reveal_strlit("cpp20");
                }
                r
            },
            CppStandard::Cpp23 => {
                let r = String::from_str("cpp23");
                proof {
                    reveal_strlit("cpp23");
                }
                r
            },
        }
    }

    /// The numeric form of the standard, as substituted into `CMakeLists.txt`.
    pub fn version(&self) -> (r: String)
        ensures
            r@ == version_of(*self),
    {
        match self {
            CppStandard::Cpp20 => {
                let r = String::from_str("20");
                proof {
                    reveal_strlit("20");
                }
                r
            },
            CppStandard::Cpp23 => {
                let r = String::from_str("23");
                proof {
                    reveal_strlit("23");
                }
                r
            },
        }
    }
}

} // verus!
