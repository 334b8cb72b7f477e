//! Recognising the game: its processes and its window.
use vstd::prelude::*;
use crate::text::{chars_eq, chars_of, lowercase, to_lowercase};

verus! {

broadcast use vstd::string::group_string_axioms;

/// Whether `p` occurs in `s` as a run of consecutive characters.
pub open spec fn occurs_in(s: Seq<char>, p: Seq<char>) -> bool {
    exists|i: int| 0 <= i <= s.len() - p.len() && #[trigger] s.subrange(i, i + p.len()) == p
}

/// Whether the characters of `p` occur consecutively in `s`.
pub fn contains_chars(s: &[char], p: &[char]) -> (b: bool)
    ensures
        b == occurs_in(s@, p@),
{
    if p.len() > s.len() {
        return false;
    }
    let last = s.len() - p.len();
    let mut i: usize = 0;
    loop
        invariant
            last == s@.len() - p@.len(),
            p@.len() <= s@.len(),
            s@.len() <= usize::MAX,
            i <= last,
            forall|k: int| 0 <= k < i ==> #[trigger] s@.subrange(k, k + p@.len()) != p@,
        decreases last - i,
    {
        let mut j: usize = 0;
        let mut same = true;
        while j < p.len()
            invariant
                i <= last,
                last == s@.len() - p@.len(),
                s@.len() <= usize::MAX,
                j <= p@.len(),
                same == forall|m: int| 0 <= m < j ==> s@[i + m] == p@[m],
            decreases p.len() - j,
        {
            if s[i + j] != p[j] {
                same = false;
            }
            j = j + 1;
        }
        if same {
            assert(s@.subrange(i as int, i + p@.len()) =~= p@);
            return true;
        } else {
            assert(s@.subrange(i as int, i + p@.len()) != p@) by {
                let m = choose|m: int| 0 <= m < p@.len() && s@[i + m] != p@[m];
                assert(s@.subrange(i as int, i + p@.len())[m] == s@[i + m]);
            }
        }
        if i == last {
            assert forall|k: int| 0 <= k <= s@.len() - p@.len() implies #[trigger] s@.subrange(
                k,
                k + p@.len(),
            ) != p@ by {}
            return false;
        }
        i = i + 1;
    }
}

/// The game's executables, as lowercase file names.
pub open spec fn fivem_process_names() -> Seq<Seq<char>> {
    seq![
        "fivem.exe"@,
        "fivem_b2802_gtaprocess.exe"@,
        "fivem_gtaprocess.exe"@,
        "fivem_dumpserver.exe"@,
    ]
}

/// Whether a running executable is one of the game's, compared case-insensitively.
pub fn is_fivem_process(exe_name: &str) -> (b: bool)
    ensures
        b == fivem_process_names().contains(lowercase(exe_name@)),
{
    let lower = to_lowercase(exe_name);
    let l = chars_of(lower.as_str());
    let n0 = chars_of("fivem.exe");
    let n1 = chars_of("fivem_b2802_gtaprocess.exe");
    let n2 = chars_of("fivem_gtaprocess.exe");
    let n3 = chars_of("fivem_dumpserver.exe");
    let b = chars_eq(l.as_slice(), n0.as_slice()) || chars_eq(l.as_slice(), n1.as_slice())
        || chars_eq(l.as_slice(), n2.as_slice()) || chars_eq(l.as_slice(), n3.as_slice());
    proof {
        let names = fivem_process_names();
        if names.contains(l@) {
            let k = choose|k: int| 0 <= k < names.len() && names[k] == l@;
            assert(k == 0 || k == 1 || k == 2 || k == 3);
        }
        if b {
            if l@ == n0@ {
                assert(names[0] == l@);
            } else if l@ == n1@ {
                assert(names[1] == l@);
            } else if l@ == n2@ {
                assert(names[2] == l@);
            } else {
                assert(names[3] == l@);
            }
        }
    }
    b
}

/// Whether a window title names the StoryLife server in FiveM: its lowercase
/// form holds both "storylife" and "fivem".
pub fn is_game_window_title(title: &str) -> (b: bool)
    ensures
        b == (occurs_in(lowercase(title@), "storylife"@) && occurs_in(lowercase(title@), "fivem"@)),
{
    let lower = to_lowercase(title);
    let l = chars_of(lower.as_str());
    let server = chars_of("storylife");
    let game = chars_of("fivem");
    contains_chars(l.as_slice(), server.as_slice()) && contains_chars(l.as_slice(), game.as_slice())
}

/// What a launch through the shell came to, from the value `ShellExecuteW`
/// returned: success above 32, otherwise the failing code.
pub fn shell_launch_outcome(code: isize) -> (r: Result<(), isize>)
    ensures
        r is Ok <==> code > 32,
        r matches Err(c) ==> c == code,
{
    if code > 32 {
        Ok(())
    } else {
        Err(code)
    }
}

/// The game's processes are exactly these four executables.
pub proof fn game_process_names()
    ensures
        fivem_process_names().len() == 4,
        fivem_process_names()[0] == "fivem.exe"@,
        fivem_process_names()[1] == "fivem_b2802_gtaprocess.exe"@,
        fivem_process_names()[2] == "fivem_gtaprocess.exe"@,
        fivem_process_names()[3] == "fivem_dumpserver.exe"@,
{
}

} // verus!
