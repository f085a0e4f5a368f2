//! The fixed filesystem layout of a conversion run.
//!
//! Every path the pipeline touches is built here, so the contracts of the
//! state machine can speak about exactly which directory or file each
//! action aims at.

use vstd::prelude::*;
use vstd::string::*;
use crate::numeral::{dec_digits, u64_to_dec, lemma_dec_digits_injective};

verus! {

/// `{input_root}/{table}.{ext}`: the directory holding a table's
/// delimited input files.
pub open spec fn input_dir_view(input_root: Seq<char>, table: Seq<char>, ext: Seq<char>) -> Seq<
    char,
> {
    input_root + "/"@ + table + "."@ + ext
}

/// `{output_root}/{table}.parquet`: a table's final output directory.
pub open spec fn output_dir_view(output_root: Seq<char>, table: Seq<char>) -> Seq<char> {
    output_root + "/"@ + table + ".parquet"@
}

/// `{output_dir}/{stub}-temp.parquet`: the temporary area one input
/// file's parts are written into before flattening.
pub open spec fn temp_dir_view(output_dir: Seq<char>, stub: Seq<char>) -> Seq<char> {
    output_dir + "/"@ + stub + "-temp.parquet"@
}

/// `{dir}/{name}`: one entry of a directory listing.
pub open spec fn join_view(dir: Seq<char>, name: Seq<char>) -> Seq<char> {
    dir + "/"@ + name
}

/// `{output_dir}/part-{n}.parquet`: the final name of part number `n`.
pub open spec fn part_file_view(output_dir: Seq<char>, n: nat) -> Seq<char> {
    output_dir + "/part-"@ + dec_digits(n) + ".parquet"@
}

pub fn input_dir_path(input_root: &str, table: &str, ext: &str) -> (r: String)
    ensures
        r@ == input_dir_view(input_root@, table@, ext@),
{
    String::from_str(input_root).concat("/").concat(table).concat(".").concat(ext)
}

pub fn output_dir_path(output_root: &str, table: &str) -> (r: String)
    ensures
        r@ == output_dir_view(output_root@, table@),
{
    String::from_str(output_root).concat("/").concat(table).concat(".parquet")
}

pub fn temp_dir_path(output_dir: &str, stub: &str) -> (r: String)
    ensures
        r@ == temp_dir_view(output_dir@, stub@),
{
    String::from_str(output_dir).concat("/").concat(stub).concat("-temp.parquet")
}

pub fn join_path(dir: &str, name: &str) -> (r: String)
    ensures
        r@ == join_view(dir@, name@),
{
    String::from_str(dir).concat("/").concat(name)
}

pub fn part_file_path(output_dir: &str, n: u64) -> (r: String)
    ensures
        r@ == part_file_view(output_dir@, n as nat),
{
    let digits = u64_to_dec(n);
    String::from_str(output_dir).concat("/part-").concat(digits.as_str()).concat(".parquet")
}

/// The file name without its trailing source-format suffix of
/// `suffix_len` characters (for example `.tbl`), or `None` when the name
/// is too short to carry the suffix.
pub fn file_stub(filename: &str, suffix_len: usize) -> (r: Option<String>)
    ensures
        filename@.len() >= suffix_len ==> (r matches Some(s) && s@ == filename@.subrange(
            0,
            filename@.len() - suffix_len,
        )),
        filename@.len() < suffix_len ==> r is None,
{
    let len = filename.unicode_len();
    if len >= suffix_len {
        let stub = filename.substring_char(0, len - suffix_len);
        Some(String::from_str(stub))
    } else {
        None
    }
}

/// Within one output directory, distinct part numbers name distinct
/// files: the part numbering can never overwrite one part with another.
pub proof fn lemma_part_file_injective(output_dir: Seq<char>, m: nat, n: nat)
    requires
        part_file_view(output_dir, m) == part_file_view(output_dir, n),
    ensures
        m == n,
{
    let pre = output_dir + "/part-"@;
    let suf = ".parquet"@;
    let a = dec_digits(m);
    let b = dec_digits(n);
    assert(pre + a + suf == pre + b + suf);
    assert((pre + a + suf).len() == pre.len() + a.len() + suf.len());
    assert((pre + b + suf).len() == pre.len() + b.len() + suf.len());
    assert(a.len() == b.len());
    assert(a =~= b) by {
        assert forall|i: int| 0 <= i < a.len() implies a[i] == b[i] by {
            assert((pre + a + suf)[pre.len() + i] == a[i]);
            assert((pre + b + suf)[pre.len() + i] == b[i]);
        }
    }
    lemma_dec_digits_injective(m, n);
}

} // verus!
