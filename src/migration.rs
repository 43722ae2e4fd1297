use vstd::prelude::*;

verus! {

/// Why a migration directory could not be read.
#[derive(Debug, Clone, Copy, PartialEq, Eq, Structural)]
pub enum MigrationError {
    /// The directory name has no `<version>_<name>` shape.
    MigrationPathError,
}

/// The position of the first `c` in `s`, if any.
pub open spec fn first_index_of(s: Seq<char>, c: char) -> Option<int> {
    if exists|i: int| 0 <= i < s.len() && s[i] == c {
        Some(choose|i: int| 0 <= i < s.len() && s[i] == c && forall|j: int| 0 <= j < i ==> s[j] != c)
    } else {
        None
    }
}

/// The version of a migration directory named `<version>_<name>`: the text
/// before the first underscore.
pub fn extract_version(file_name: &str) -> (r: Result<String, MigrationError>)
    ensures
        match first_index_of(file_name@, '_') {
            Some(i) => r matches Ok(v) && v@ == file_name@.subrange(0, i),
            None => r == Err::<String, MigrationError>(MigrationError::MigrationPathError),
        },
{
    let n = file_name.unicode_len();
    let mut i: usize = 0;
    while i < n
        invariant
            n == file_name@.len(),
            i <= n,
            forall|j: int| 0 <= j < i ==> file_name@[j] != '_',
        decreases n - i,
    {
        if file_name.get_char(i) == '_' {
            let ghost s = file_name@;
            assert(0 <= i < s.len() && s[i as int] == '_' && forall|j: int| 0 <= j < i ==> s[j] != '_');
            let ghost k = first_index_of(s, '_')->Some_0;
            assert(k == i as int) by {
                if k < i {
                } else if k > i {
                }
            }
            return Ok(file_name.substring_char(0, i).to_owned());
        }
        i = i + 1;
    }
    Err(MigrationError::MigrationPathError)
}

} // verus!
