//! Which external program opens a file: a default, overridden per file
//! extension.

use vstd::prelude::*;

use crate::task::spec_dot_split;
use crate::text::str_chars;

verus! {

/// The extension of a file name: everything after the last dot, or the
/// whole name when there is no dot.
pub open spec fn spec_extension(file: Seq<char>) -> Seq<char> {
    spec_dot_split(file).last()
}

/// Whether a list of extensions contains the given one.
pub open spec fn spec_row_matches(row: Seq<String>, ext: Seq<char>) -> bool {
    exists|j: int| 0 <= j < row.len() && (#[trigger] row[j])@ == ext
}

/// The opener configuration: a default program, and per-extension
/// overrides.  Row `i` of `extensions` belongs to program `i` of
/// `paths`.
pub struct ExtConfig {
    /// The program files open with when no override applies.
    pub default_path: String,
    /// Groups of file extensions with a dedicated program each.
    pub extensions: Vec<Vec<String>>,
    /// The program belonging to each extension group.
    pub paths: Vec<String>,
}

impl ExtConfig {
    pub open spec fn wf(&self) -> bool {
        self.extensions@.len() == self.paths@.len()
    }

    /// Checks the configuration's own validity, for data read from
    /// outside.
    pub fn check_wf(&self) -> (r: bool)
        ensures
            r == self.wf(),
    {
        self.extensions.len() == self.paths.len()
    }

    pub fn new(default_path: String) -> (r: ExtConfig)
        ensures
            r.wf(),
            r.default_path == default_path,
            r.extensions@.len() == 0,
            r.paths@.len() == 0,
    {
        ExtConfig { default_path, extensions: Vec::new(), paths: Vec::new() }
    }

    /// The program that opens `file`: the one of the first extension
    /// group holding the file's extension, or the default.
    pub fn choose_program<'a>(&'a self, file: &str) -> (r: &'a String)
        requires
            self.wf(),
        ensures
            ({
                let ext = spec_extension(file@);
                if exists|i: int|
                    0 <= i < self.extensions@.len() && spec_row_matches(
                        (#[trigger] self.extensions@[i])@,
                        ext,
                    ) {
                    exists|i: int|
                        {
                            &&& 0 <= i < self.extensions@.len()
                            &&& spec_row_matches((#[trigger] self.extensions@[i])@, ext)
                            &&& forall|i2: int|
                                0 <= i2 < i ==> !spec_row_matches(
                                    (#[trigger] self.extensions@[i2])@,
                                    ext,
                                )
                            &&& r == self.paths@[i]
                        }
                } else {
                    r == self.default_path
                }
            }),
    {
        let ext = extension_chars(file);
        let mut i: usize = 0;
        while i < self.extensions.len()
            invariant
                self.wf(),
                i <= self.extensions@.len(),
                ext@ == spec_extension(file@),
                forall|i2: int|
                    0 <= i2 < i ==> !spec_row_matches(
                        (#[trigger] self.extensions@[i2])@,
                        spec_extension(file@),
                    ),
            decreases self.extensions@.len() - i,
        {
            let row = &self.extensions[i];
            let mut j: usize = 0;
            while j < row.len()
                invariant
                    self.wf(),
                    i < self.extensions@.len(),
                    row == self.extensions@[i as int],
                    forall|i2: int|
                        0 <= i2 < i ==> !spec_row_matches(
                            (#[trigger] self.extensions@[i2])@,
                            spec_extension(file@),
                        ),
                    j <= row@.len(),
                    ext@ == spec_extension(file@),
                    forall|j2: int| 0 <= j2 < j ==> (#[trigger] row@[j2])@ != ext@,
                decreases row@.len() - j,
            {
                if eq_chars(&row[j], &ext) {
                    proof {
                        assert(spec_row_matches(self.extensions@[i as int]@, spec_extension(
                            file@,
                        )));
                    }
                    return &self.paths[i];
                }
                j = j + 1;
            }
            i = i + 1;
        }
        &self.default_path
    }
}

/// The characters after the last dot of a file name, or all of them
/// when it has no dot.
pub fn extension_chars(file: &str) -> (r: Vec<char>)
    ensures
        r@ == spec_extension(file@),
{
    let chars = str_chars(file);
    let ghost all: Seq<char> = file@;
    let mut ext: Vec<char> = Vec::new();
    let mut i: usize = 0;
    proof {
        assert(all.subrange(0, 0) =~= Seq::<char>::empty());
    }
    while i < chars.len()
        invariant
            chars@ == all,
            i <= all.len(),
            ext@ == spec_extension(all.subrange(0, i as int)),
        decreases all.len() - i,
    {
        proof {
            crate::task::lemma_dot_split_nonempty(all.subrange(0, i as int));
            assert(all.subrange(0, i + 1).drop_last() =~= all.subrange(0, i as int));
            assert(all.subrange(0, i + 1).last() == all[i as int]);
        }
        let c = chars[i];
        if c == '.' {
            ext.clear();
        } else {
            ext.push(c);
        }
        i = i + 1;
    }
    proof {
        assert(all.subrange(0, all.len() as int) =~= all);
    }
    ext
}

/// Whether a string holds exactly the given characters.
pub fn eq_chars(s: &String, t: &Vec<char>) -> (r: bool)
    ensures
        r == (s@ == t@),
{
    let sc = str_chars(s.as_str());
    if sc.len() != t.len() {
        proof {
            assert(s@ != t@);
        }
        return false;
    }
    let mut i: usize = 0;
    while i < sc.len()
        invariant
            sc@ == s@,
            sc@.len() == t@.len(),
            i <= sc@.len(),
            forall|k: int| 0 <= k < i ==> sc@[k] == t@[k],
        decreases sc@.len() - i,
    {
        if sc[i] != t[i] {
            return false;
        }
        i = i + 1;
    }
    proof {
        assert(s@ =~= t@);
    }
    true
}

} // verus!
