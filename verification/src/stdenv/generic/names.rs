//! The names of the variables that a builder binds.
//!
//! The generic executor reads a compiled step by these names, so no two of
//! them may be the same. Each name has a number, its place in the fixed
//! order in which the variables are bound; that the numbers differ shows
//! that the names do.

use vstd::prelude::*;

verus! {

/// The character of `name` at `i`, or a blank where `name` is shorter.
pub open spec fn at(name: Seq<char>, i: int) -> char {
    if 0 <= i < name.len() {
        name[i]
    } else {
        ' '
    }
}

/// The length of a name and its characters at four places. No two
/// variable names agree in all five.
pub open spec fn mark(name: Seq<char>) -> (nat, char, char, char, char) {
    (name.len(), at(name, 1), at(name, 6), at(name, 8), at(name, 14))
}

/// The place of a variable name in the fixed order, and -1 for every other
/// string.
pub open spec fn code(name: Seq<char>) -> int {
    if name == "stdenv"@ {
        0
    } else if name == "SRC"@ {
        1
    } else if name == "BUILD_COMMAND"@ {
        2
    } else if name == "PRE_PHASE"@ {
        3
    } else if name == "POST_PHASE"@ {
        4
    } else if name == "DEPS_BUILD_BUILD"@ {
        5
    } else if name == "DEPS_BUILD_HOST"@ {
        6
    } else if name == "DEPS_BUILD_TARGET"@ {
        7
    } else if name == "DEPS_HOST_HOST"@ {
        8
    } else if name == "DEPS_HOST_TARGET"@ {
        9
    } else if name == "DEPS_TARGET_TARGET"@ {
        10
    } else if name == "PROPAGATED_BUILD_BUILD"@ {
        11
    } else if name == "PROPAGATED_BUILD_HOST"@ {
        12
    } else if name == "PROPAGATED_BUILD_TARGET"@ {
        13
    } else if name == "PROPAGATED_HOST_HOST"@ {
        14
    } else if name == "PROPAGATED_HOST_TARGET"@ {
        15
    } else if name == "PROPAGATED_TARGET_TARGET"@ {
        16
    } else if name == "UNPACK"@ {
        17
    } else if name == "SRC_ROOT"@ {
        18
    } else if name == "PRE_UNPACK"@ {
        19
    } else if name == "UNPACK_PHASE"@ {
        20
    } else if name == "POST_UNPACK"@ {
        21
    } else if name == "PATCH"@ {
        22
    } else if name == "PATCHES"@ {
        23
    } else if name == "PATCH_FLAGS"@ {
        24
    } else if name == "PRE_PATCH"@ {
        25
    } else if name == "PATCH_PHASE"@ {
        26
    } else if name == "POST_PATCH"@ {
        27
    } else if name == "CONFIGURE"@ {
        28
    } else if name == "CONFIGURE_SCRIPT"@ {
        29
    } else if name == "CONFIGURE_FLAGS"@ {
        30
    } else if name == "PRE_CONFIGURE"@ {
        31
    } else if name == "CONFIGURE_PHASE"@ {
        32
    } else if name == "POST_CONFIGURE"@ {
        33
    } else if name == "BUILD"@ {
        34
    } else if name == "MAKEFILE"@ {
        35
    } else if name == "MAKE_FLAGS"@ {
        36
    } else if name == "PRE_BUILD"@ {
        37
    } else if name == "BUILD_PHASE"@ {
        38
    } else if name == "POST_BUILD"@ {
        39
    } else if name == "CHECK"@ {
        40
    } else if name == "CHECK_FLAGS"@ {
        41
    } else if name == "PRE_CHECK"@ {
        42
    } else if name == "CHECK_PHASE"@ {
        43
    } else if name == "POST_CHECK"@ {
        44
    } else if name == "INSTALL"@ {
        45
    } else if name == "INSTALL_TARGETS"@ {
        46
    } else if name == "INSTALL_FLAGS"@ {
        47
    } else if name == "PRE_INSTALL"@ {
        48
    } else if name == "INSTALL_PHASE"@ {
        49
    } else if name == "POST_INSTALL"@ {
        50
    } else if name == "FIX"@ {
        51
    } else if name == "STRIP"@ {
        52
    } else if name == "PATCH_ELF"@ {
        53
    } else if name == "PRE_FIX"@ {
        54
    } else if name == "FIX_PHASE"@ {
        55
    } else if name == "POST_FIX"@ {
        56
    } else if name == "INSTALL_CHECK"@ {
        57
    } else if name == "INSTALL_CHECK_FLAGS"@ {
        58
    } else if name == "PRE_INSTALL_CHECK"@ {
        59
    } else if name == "INSTALL_CHECK_PHASE"@ {
        60
    } else if name == "POST_INSTALL_CHECK"@ {
        61
    } else {
        -1
    }
}

/// Every variable name has the place of its own: the names are pairwise
/// different.
pub proof fn lemma_codes()
    ensures
        code("stdenv"@) == 0,
        code("SRC"@) == 1,
        code("BUILD_COMMAND"@) == 2,
        code("PRE_PHASE"@) == 3,
        code("POST_PHASE"@) == 4,
        code("DEPS_BUILD_BUILD"@) == 5,
        code("DEPS_BUILD_HOST"@) == 6,
        code("DEPS_BUILD_TARGET"@) == 7,
        code("DEPS_HOST_HOST"@) == 8,
        code("DEPS_HOST_TARGET"@) == 9,
        code("DEPS_TARGET_TARGET"@) == 10,
        code("PROPAGATED_BUILD_BUILD"@) == 11,
        code("PROPAGATED_BUILD_HOST"@) == 12,
        code("PROPAGATED_BUILD_TARGET"@) == 13,
        code("PROPAGATED_HOST_HOST"@) == 14,
        code("PROPAGATED_HOST_TARGET"@) == 15,
        code("PROPAGATED_TARGET_TARGET"@) == 16,
        code("UNPACK"@) == 17,
        code("SRC_ROOT"@) == 18,
        code("PRE_UNPACK"@) == 19,
        code("UNPACK_PHASE"@) == 20,
        code("POST_UNPACK"@) == 21,
        code("PATCH"@) == 22,
        code("PATCHES"@) == 23,
        code("PATCH_FLAGS"@) == 24,
        code("PRE_PATCH"@) == 25,
        code("PATCH_PHASE"@) == 26,
        code("POST_PATCH"@) == 27,
        code("CONFIGURE"@) == 28,
        code("CONFIGURE_SCRIPT"@) == 29,
        code("CONFIGURE_FLAGS"@) == 30,
        code("PRE_CONFIGURE"@) == 31,
        code("CONFIGURE_PHASE"@) == 32,
        code("POST_CONFIGURE"@) == 33,
        code("BUILD"@) == 34,
        code("MAKEFILE"@) == 35,
        code("MAKE_FLAGS"@) == 36,
        code("PRE_BUILD"@) == 37,
        code("BUILD_PHASE"@) == 38,
        code("POST_BUILD"@) == 39,
        code("CHECK"@) == 40,
        code("CHECK_FLAGS"@) == 41,
        code("PRE_CHECK"@) == 42,
        code("CHECK_PHASE"@) == 43,
        code("POST_CHECK"@) == 44,
        code("INSTALL"@) == 45,
        code("INSTALL_TARGETS"@) == 46,
        code("INSTALL_FLAGS"@) == 47,
        code("PRE_INSTALL"@) == 48,
        code("INSTALL_PHASE"@) == 49,
        code("POST_INSTALL"@) == 50,
        code("FIX"@) == 51,
        code("STRIP"@) == 52,
        code("PATCH_ELF"@) == 53,
        code("PRE_FIX"@) == 54,
        code("FIX_PHASE"@) == 55,
        code("POST_FIX"@) == 56,
        code("INSTALL_CHECK"@) == 57,
        code("INSTALL_CHECK_FLAGS"@) == 58,
        code("PRE_INSTALL_CHECK"@) == 59,
        code("INSTALL_CHECK_PHASE"@) == 60,
        code("POST_INSTALL_CHECK"@) == 61,
{
    reveal_strlit("stdenv");
    assert(mark("stdenv"@) == (6nat, 't', ' ', ' ', ' '));
    reveal_strlit("SRC");
    assert(mark("SRC"@) == (3nat, 'R', ' ', ' ', ' '));
    reveal_strlit("BUILD_COMMAND");
    assert(mark("BUILD_COMMAND"@) == (13nat, 'U', 'C', 'M', ' '));
    reveal_strlit("PRE_PHASE");
    assert(mark("PRE_PHASE"@) == (9nat, 'R', 'A', 'E', ' '));
    reveal_strlit("POST_PHASE");
    assert(mark("POST_PHASE"@) == (10nat, 'O', 'H', 'S', ' '));
    reveal_strlit("DEPS_BUILD_BUILD");
    assert(mark("DEPS_BUILD_BUILD"@) == (16nat, 'E', 'U', 'L', 'L'));
    reveal_strlit("DEPS_BUILD_HOST");
    assert(mark("DEPS_BUILD_HOST"@) == (15nat, 'E', 'U', 'L', 'T'));
    reveal_strlit("DEPS_BUILD_TARGET");
    assert(mark("DEPS_BUILD_TARGET"@) == (17nat, 'E', 'U', 'L', 'G'));
    reveal_strlit("DEPS_HOST_HOST");
    assert(mark("DEPS_HOST_HOST"@) == (14nat, 'E', 'O', 'T', ' '));
    reveal_strlit("DEPS_HOST_TARGET");
    assert(mark("DEPS_HOST_TARGET"@) == (16nat, 'E', 'O', 'T', 'E'));
    reveal_strlit("DEPS_TARGET_TARGET");
    assert(mark("DEPS_TARGET_TARGET"@) == (18nat, 'E', 'A', 'G', 'R'));
    reveal_strlit("PROPAGATED_BUILD_BUILD");
    assert(mark("PROPAGATED_BUILD_BUILD"@) == (22nat, 'R', 'A', 'E', 'L'));
    reveal_strlit("PROPAGATED_BUILD_HOST");
    assert(mark("PROPAGATED_BUILD_HOST"@) == (21nat, 'R', 'A', 'E', 'L'));
    reveal_strlit("PROPAGATED_BUILD_TARGET");
    assert(mark("PROPAGATED_BUILD_TARGET"@) == (23nat, 'R', 'A', 'E', 'L'));
    reveal_strlit("PROPAGATED_HOST_HOST");
    assert(mark("PROPAGATED_HOST_HOST"@) == (20nat, 'R', 'A', 'E', 'T'));
    reveal_strlit("PROPAGATED_HOST_TARGET");
    assert(mark("PROPAGATED_HOST_TARGET"@) == (22nat, 'R', 'A', 'E', 'T'));
    reveal_strlit("PROPAGATED_TARGET_TARGET");
    assert(mark("PROPAGATED_TARGET_TARGET"@) == (24nat, 'R', 'A', 'E', 'G'));
    reveal_strlit("UNPACK");
    assert(mark("UNPACK"@) == (6nat, 'N', ' ', ' ', ' '));
    reveal_strlit("SRC_ROOT");
    assert(mark("SRC_ROOT"@) == (8nat, 'R', 'O', ' ', ' '));
    reveal_strlit("PRE_UNPACK");
    assert(mark("PRE_UNPACK"@) == (10nat, 'R', 'P', 'C', ' '));
    reveal_strlit("UNPACK_PHASE");
    assert(mark("UNPACK_PHASE"@) == (12nat, 'N', '_', 'H', ' '));
    reveal_strlit("POST_UNPACK");
    assert(mark("POST_UNPACK"@) == (11nat, 'O', 'N', 'A', ' '));
    reveal_strlit("PATCH");
    assert(mark("PATCH"@) == (5nat, 'A', ' ', ' ', ' '));
    reveal_strlit("PATCHES");
    assert(mark("PATCHES"@) == (7nat, 'A', 'S', ' ', ' '));
    reveal_strlit("PATCH_FLAGS");
    assert(mark("PATCH_FLAGS"@) == (11nat, 'A', 'F', 'A', ' '));
    reveal_strlit("PRE_PATCH");
    assert(mark("PRE_PATCH"@) == (9nat, 'R', 'T', 'H', ' '));
    reveal_strlit("PATCH_PHASE");
    assert(mark("PATCH_PHASE"@) == (11nat, 'A', 'P', 'A', ' '));
    reveal_strlit("POST_PATCH");
    assert(mark("POST_PATCH"@) == (10nat, 'O', 'A', 'C', ' '));
    reveal_strlit("CONFIGURE");
    assert(mark("CONFIGURE"@) == (9nat, 'O', 'U', 'E', ' '));
    reveal_strlit("CONFIGURE_SCRIPT");
    assert(mark("CONFIGURE_SCRIPT"@) == (16nat, 'O', 'U', 'E', 'P'));
    reveal_strlit("CONFIGURE_FLAGS");
    assert(mark("CONFIGURE_FLAGS"@) == (15nat, 'O', 'U', 'E', 'S'));
    reveal_strlit("PRE_CONFIGURE");
    assert(mark("PRE_CONFIGURE"@) == (13nat, 'R', 'N', 'I', ' '));
    reveal_strlit("CONFIGURE_PHASE");
    assert(mark("CONFIGURE_PHASE"@) == (15nat, 'O', 'U', 'E', 'E'));
    reveal_strlit("POST_CONFIGURE");
    assert(mark("POST_CONFIGURE"@) == (14nat, 'O', 'O', 'F', ' '));
    reveal_strlit("BUILD");
    assert(mark("BUILD"@) == (5nat, 'U', ' ', ' ', ' '));
    reveal_strlit("MAKEFILE");
    assert(mark("MAKEFILE"@) == (8nat, 'A', 'L', ' ', ' '));
    reveal_strlit("MAKE_FLAGS");
    assert(mark("MAKE_FLAGS"@) == (10nat, 'A', 'L', 'G', ' '));
    reveal_strlit("PRE_BUILD");
    assert(mark("PRE_BUILD"@) == (9nat, 'R', 'I', 'D', ' '));
    reveal_strlit("BUILD_PHASE");
    assert(mark("BUILD_PHASE"@) == (11nat, 'U', 'P', 'A', ' '));
    reveal_strlit("POST_BUILD");
    assert(mark("POST_BUILD"@) == (10nat, 'O', 'U', 'L', ' '));
    reveal_strlit("CHECK");
    assert(mark("CHECK"@) == (5nat, 'H', ' ', ' ', ' '));
    reveal_strlit("CHECK_FLAGS");
    assert(mark("CHECK_FLAGS"@) == (11nat, 'H', 'F', 'A', ' '));
    reveal_strlit("PRE_CHECK");
    assert(mark("PRE_CHECK"@) == (9nat, 'R', 'E', 'K', ' '));
    reveal_strlit("CHECK_PHASE");
    assert(mark("CHECK_PHASE"@) == (11nat, 'H', 'P', 'A', ' '));
    reveal_strlit("POST_CHECK");
    assert(mark("POST_CHECK"@) == (10nat, 'O', 'H', 'C', ' '));
    reveal_strlit("INSTALL");
    assert(mark("INSTALL"@) == (7nat, 'N', 'L', ' ', ' '));
    reveal_strlit("INSTALL_TARGETS");
    assert(mark("INSTALL_TARGETS"@) == (15nat, 'N', 'L', 'T', 'S'));
    reveal_strlit("INSTALL_FLAGS");
    assert(mark("INSTALL_FLAGS"@) == (13nat, 'N', 'L', 'F', ' '));
    reveal_strlit("PRE_INSTALL");
    assert(mark("PRE_INSTALL"@) == (11nat, 'R', 'S', 'A', ' '));
    reveal_strlit("INSTALL_PHASE");
    assert(mark("INSTALL_PHASE"@) == (13nat, 'N', 'L', 'P', ' '));
    reveal_strlit("POST_INSTALL");
    assert(mark("POST_INSTALL"@) == (12nat, 'O', 'N', 'T', ' '));
    reveal_strlit("FIX");
    assert(mark("FIX"@) == (3nat, 'I', ' ', ' ', ' '));
    reveal_strlit("STRIP");
    assert(mark("STRIP"@) == (5nat, 'T', ' ', ' ', ' '));
    reveal_strlit("PATCH_ELF");
    assert(mark("PATCH_ELF"@) == (9nat, 'A', 'E', 'F', ' '));
    reveal_strlit("PRE_FIX");
    assert(mark("PRE_FIX"@) == (7nat, 'R', 'X', ' ', ' '));
    reveal_strlit("FIX_PHASE");
    assert(mark("FIX_PHASE"@) == (9nat, 'I', 'A', 'E', ' '));
    reveal_strlit("POST_FIX");
    assert(mark("POST_FIX"@) == (8nat, 'O', 'I', ' ', ' '));
    reveal_strlit("INSTALL_CHECK");
    assert(mark("INSTALL_CHECK"@) == (13nat, 'N', 'L', 'C', ' '));
    reveal_strlit("INSTALL_CHECK_FLAGS");
    assert(mark("INSTALL_CHECK_FLAGS"@) == (19nat, 'N', 'L', 'C', 'F'));
    reveal_strlit("PRE_INSTALL_CHECK");
    assert(mark("PRE_INSTALL_CHECK"@) == (17nat, 'R', 'S', 'A', 'E'));
    reveal_strlit("INSTALL_CHECK_PHASE");
    assert(mark("INSTALL_CHECK_PHASE"@) == (19nat, 'N', 'L', 'C', 'P'));
    reveal_strlit("POST_INSTALL_CHECK");
    assert(mark("POST_INSTALL_CHECK"@) == (18nat, 'O', 'N', 'T', 'H'));
}

} // verus!
