use vstd::prelude::*;
use vstd::string::StrSliceExecFns;

use crate::errors::ConfigError;
use crate::policy::{is_file_extension_supported, spec_extension_supported};
use crate::text::{is_blank, spec_blank, str_eq};

verus! {

/// The extension of a file name: the part after the last `.`, provided
/// that dot is not the leading character. A name without such a dot has
/// no extension; a leading dot alone (a hidden file) gives none either.
pub open spec fn extension_view(name: Seq<char>) -> Option<Seq<char>>
    decreases name.len(),
{
    if name.len() <= 1 {
        None
    } else if name.last() == '.' {
        Some(Seq::empty())
    } else {
        match extension_view(name.drop_last()) {
            Some(e) => Some(e.push(name.last())),
            None => None,
        }
    }
}

proof fn lemma_no_dot_no_extension(name: Seq<char>)
    requires
        forall|j: int| 1 <= j < name.len() ==> name[j] != '.',
    ensures
        extension_view(name) is None,
    decreases name.len(),
{
    if name.len() > 1 {
        lemma_no_dot_no_extension(name.drop_last());
    }
}

proof fn lemma_extension_after_last_dot(name: Seq<char>, i: int)
    requires
        1 <= i < name.len(),
        name[i] == '.',
        forall|j: int| i < j < name.len() ==> name[j] != '.',
    ensures
        extension_view(name) == Some(name.subrange(i + 1, name.len() as int)),
    decreases name.len(),
{
    if i == name.len() - 1 {
        assert(name.subrange(i + 1, name.len() as int) =~= Seq::<char>::empty());
    } else {
        let prefix = name.drop_last();
        lemma_extension_after_last_dot(prefix, i);
        assert(prefix.subrange(i + 1, prefix.len() as int).push(name.last()) =~= name.subrange(
            i + 1,
            name.len() as int,
        ));
    }
}

/// Every name the loader selects carries exactly the requested
/// extension: the invariant of the name-to-content mapping built from
/// the selection.
pub proof fn lemma_selected_files_extension(entries: Seq<String>, ext: Seq<char>, expect: Seq<char>)
    ensures
        forall|k: int|
            0 <= k < selected_files(entries, ext, expect).len() ==> extension_view(
                #[trigger] selected_files(entries, ext, expect)[k]@,
            ) == Some(ext),
    decreases entries.len(),
{
    if entries.len() > 0 {
        lemma_selected_files_extension(entries.drop_last(), ext, expect);
    }
}

/// A listing in which no entry is selected yields an empty result, not
/// an error.
pub proof fn lemma_no_match_selects_nothing(entries: Seq<String>, ext: Seq<char>, expect: Seq<char>)
    requires
        forall|i: int| 0 <= i < entries.len() ==> !spec_selected(#[trigger] entries[i]@, ext, expect),
    ensures
        selected_files(entries, ext, expect) == Seq::<String>::empty(),
    decreases entries.len(),
{
    if entries.len() > 0 {
        assert(forall|i: int|
            0 <= i < entries.drop_last().len() ==> entries.drop_last()[i] == entries[i]);
        lemma_no_match_selects_nothing(entries.drop_last(), ext, expect);
    }
}

/// Whether the extension of `name` is exactly `ext` (case-sensitive,
/// with no leading dot on either side).
pub fn extension_matches(name: &str, ext: &str) -> (r: bool)
    ensures
        r == (extension_view(name@) == Some(ext@)),
{
    let n = name.unicode_len();
    let mut dot: usize = 0;
    let mut k: usize = 0;
    while k < n
        invariant
            n == name@.len(),
            k <= n,
            dot == 0 ==> forall|j: int| 1 <= j < k ==> name@[j] != '.',
            dot != 0 ==> 1 <= dot < k && name@[dot as int] == '.' && forall|j: int|
                dot < j < k ==> name@[j] != '.',
        decreases n - k,
    {
        if k >= 1 && name.get_char(k) == '.' {
            dot = k;
        }
        k += 1;
    }
    if dot == 0 {
        proof {
            lemma_no_dot_no_extension(name@);
        }
        false
    } else {
        let tail = name.substring_char(dot + 1, n);
        proof {
            lemma_extension_after_last_dot(name@, dot as int);
        }
        str_eq(tail, ext)
    }
}

/// Whether a directory entry named `name` is collected by the loader:
/// its extension must equal `file_extension`, and, when
/// `expect_config_file` is not blank (single-file mode), the whole name
/// must equal `expect_config_file`.
pub open spec fn spec_selected(name: Seq<char>, ext: Seq<char>, expect: Seq<char>) -> bool {
    extension_view(name) == Some(ext) && (spec_blank(expect) || name == expect)
}

/// The directory listing `entries` restricted to the selected names,
/// in their original order.
pub open spec fn selected_files(entries: Seq<String>, ext: Seq<char>, expect: Seq<char>) -> Seq<
    String,
>
    decreases entries.len(),
{
    if entries.len() == 0 {
        Seq::empty()
    } else {
        let rest = selected_files(entries.drop_last(), ext, expect);
        if spec_selected(entries.last()@, ext, expect) {
            rest.push(entries.last())
        } else {
            rest
        }
    }
}

proof fn lemma_selected_files_push(entries: Seq<String>, ext: Seq<char>, expect: Seq<char>, x: String)
    ensures
        selected_files(entries.push(x), ext, expect) == if spec_selected(x@, ext, expect) {
            selected_files(entries, ext, expect).push(x)
        } else {
            selected_files(entries, ext, expect)
        },
{
    assert(entries.push(x).drop_last() =~= entries);
    assert(entries.push(x).last() == x);
}

/// Decide whether one directory entry survives the loader's filter.
pub fn file_selected(name: &str, file_extension: &str, expect_config_file: &str) -> (r: bool)
    ensures
        r == spec_selected(name@, file_extension@, expect_config_file@),
{
    if !extension_matches(name, file_extension) {
        return false;
    }
    if is_blank(expect_config_file) {
        return true;
    }
    str_eq(name, expect_config_file)
}

/// Pick, out of a directory listing `entries`, the file names the
/// loader must read, in order: those whose extension equals
/// `file_extension` and, in single-file mode (a non-blank
/// `expect_config_file`), whose whole name is `expect_config_file`.
/// Fails with `UnsupportedExtension`, touching nothing, when
/// `file_extension` is not on the allow-list.
pub fn select_files(entries: &Vec<String>, file_extension: &str, expect_config_file: &str) -> (r:
    Result<Vec<String>, ConfigError>)
    ensures
        spec_extension_supported(file_extension@) ==> r is Ok && r->Ok_0@ == selected_files(
            entries@,
            file_extension@,
            expect_config_file@,
        ),
        !spec_extension_supported(file_extension@) ==> r == Result::<Vec<String>, ConfigError>::Err(
            ConfigError::UnsupportedExtension,
        ),
{
    if !is_file_extension_supported(file_extension) {
        return Err(ConfigError::UnsupportedExtension);
    }
    let mut out: Vec<String> = Vec::new();
    let mut i: usize = 0;
    while i < entries.len()
        invariant
            i <= entries.len(),
            out@ == selected_files(entries@.take(i as int), file_extension@, expect_config_file@),
        decreases entries.len() - i,
    {
        let name = &entries[i];
        if file_selected(name.as_str(), file_extension, expect_config_file) {
            out.push(name.clone());
        }
        proof {
            broadcast use vstd::prelude::Seq::lemma_take_succ_push;

            let prefix = entries@.take(i as int);
            let elem = entries@[i as int];
            assert(entries@.take(i as int + 1) == prefix.push(elem));
            lemma_selected_files_push(prefix, file_extension@, expect_config_file@, elem);
        }
        i += 1;
    }
    proof {
        assert(entries@.take(entries@.len() as int) =~= entries@);
    }
    Ok(out)
}

} // verus!
