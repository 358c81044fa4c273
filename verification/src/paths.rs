//! File names: extensions and formats, stems, output and temporary names.
//!
//! Names are handled as sequences of characters. Directories are opaque
//! strings that are only compared and handed through.

use vstd::prelude::*;
use vstd::string::*;
use crate::codec::SourceFormat;
use crate::config::ProcessConfig;
use crate::config::ProcessMode;

verus! {

/// Index of the last `.` in `name`.
pub open spec fn last_dot(name: Seq<char>) -> Option<int>
    decreases name.len(),
{
    if name.len() == 0 {
        None
    } else if name.last() == '.' {
        Some(name.len() - 1)
    } else {
        last_dot(name.drop_last())
    }
}

/// `last_dot` points at a dot with no dot behind it; `None` means that the
/// name holds no dot.
pub proof fn lemma_last_dot(name: Seq<char>)
    ensures
        match last_dot(name) {
            Some(i) => 0 <= i < name.len() && name[i] == '.' && forall|j: int|
                i < j < name.len() ==> name[j] != '.',
            None => forall|j: int| 0 <= j < name.len() ==> name[j] != '.',
        },
    decreases name.len(),
{
    if name.len() > 0 && name.last() != '.' {
        let rest = name.drop_last();
        lemma_last_dot(rest);
        assert forall|j: int| 0 <= j < rest.len() implies rest[j] == name[j] by {}
    }
}

/// Where a file name splits into stem and extension: at its last dot,
/// unless that dot leads the name or the name is `..`.
pub open spec fn split_point(name: Seq<char>) -> Option<int> {
    if name =~= seq!['.', '.'] {
        None
    } else {
        match last_dot(name) {
            Some(i) => if i == 0 {
                None
            } else {
                Some(i)
            },
            None => None,
        }
    }
}

/// The name without its extension; the whole name where it has none.
pub open spec fn stem_of(name: Seq<char>) -> Seq<char> {
    match split_point(name) {
        Some(i) => name.subrange(0, i),
        None => name,
    }
}

/// What follows the last dot, if the name has an extension.
pub open spec fn extension_of(name: Seq<char>) -> Option<Seq<char>> {
    match split_point(name) {
        Some(i) => Some(name.subrange(i + 1, name.len() as int)),
        None => None,
    }
}

/// Finds where `name` splits into stem and extension.
pub fn find_split(name: &str) -> (split: Option<usize>)
    ensures
        match split {
            Some(i) => split_point(name@) == Some(i as int) && 0 < i < name@.len(),
            None => split_point(name@) is None,
        },
{
    let n: usize = name.unicode_len();
    if n == 2 && name.get_char(0) == '.' && name.get_char(1) == '.' {
        assert(name@ =~= seq!['.', '.']);
        return None;
    }
    assert(!(name@ =~= seq!['.', '.'])) by {
        if name@ =~= seq!['.', '.'] {
            assert(name@.len() == 2);
            assert(name@[0] == '.');
            assert(name@[1] == '.');
        }
    }
    let mut i: usize = n;
    assert(name@.take(n as int) =~= name@);
    while i > 0
        invariant
            i <= n,
            n == name@.len(),
            !(name@ =~= seq!['.', '.']),
            last_dot(name@) == last_dot(name@.take(i as int)),
        decreases i,
    {
        let ghost prefix = name@.take(i as int);
        assert(prefix.drop_last() =~= name@.take(i - 1));
        assert(prefix.last() == name@[i - 1]);
        if name.get_char(i - 1) == '.' {
            if i - 1 == 0 {
                return None;
            }
            return Some(i - 1);
        }
        i = i - 1;
    }
    None
}

/// The name without its extension.
pub fn file_stem(name: &str) -> (stem: String)
    ensures
        stem@ == stem_of(name@),
{
    match find_split(name) {
        Some(i) => String::from_str(name.substring_char(0, i)),
        None => String::from_str(name),
    }
}

/// The extension of the name, if it has one.
pub fn extension(name: &str) -> (ext: Option<String>)
    ensures
        match ext {
            Some(e) => extension_of(name@) == Some(e@),
            None => extension_of(name@) is None,
        },
{
    match find_split(name) {
        Some(i) => {
            let n: usize = name.unicode_len();
            Some(String::from_str(name.substring_char(i + 1, n)))
        },
        None => None,
    }
}

/// `c` is the lower-case letter `letter` or its upper-case form.
pub open spec fn same_letter(c: char, letter: char) -> bool {
    c == letter || (65 <= c as u32 <= 90 && c as u32 + 32 == letter as u32)
}

/// `ext` spells `word`, letter case aside.
pub open spec fn spells(ext: Seq<char>, word: Seq<char>) -> bool {
    ext.len() == word.len() && forall|i: int|
        0 <= i < ext.len() ==> same_letter(#[trigger] ext[i], word[i])
}

/// The format that an extension stands for: `jpg`, `jpeg`, `png`, `webp`
/// or `bmp`, in any letter case.
pub open spec fn format_of_extension(ext: Seq<char>) -> Option<SourceFormat> {
    if spells(ext, seq!['j', 'p', 'g']) || spells(ext, seq!['j', 'p', 'e', 'g']) {
        Some(SourceFormat::Jpeg)
    } else if spells(ext, seq!['p', 'n', 'g']) {
        Some(SourceFormat::Png)
    } else if spells(ext, seq!['w', 'e', 'b', 'p']) {
        Some(SourceFormat::WebP)
    } else if spells(ext, seq!['b', 'm', 'p']) {
        Some(SourceFormat::Bmp)
    } else {
        None
    }
}

/// The format that a file name promises, by its extension.
pub open spec fn format_of_name(name: Seq<char>) -> Option<SourceFormat> {
    match extension_of(name) {
        Some(ext) => format_of_extension(ext),
        None => None,
    }
}

fn is_same_letter(c: char, letter: char) -> (same: bool)
    ensures
        same == same_letter(c, letter),
{
    let code: u32 = c as u32;
    c == letter || (65 <= code && code <= 90 && code + 32 == letter as u32)
}

fn spells_word(ext: &str, word: &Vec<char>) -> (same: bool)
    ensures
        same == spells(ext@, word@),
{
    let n: usize = ext.unicode_len();
    if n != word.len() {
        return false;
    }
    let mut i: usize = 0;
    while i < n
        invariant
            i <= n,
            n == ext@.len(),
            n == word@.len(),
            forall|j: int| 0 <= j < i ==> same_letter(#[trigger] ext@[j], word@[j]),
        decreases n - i,
    {
        if !is_same_letter(ext.get_char(i), word[i]) {
            return false;
        }
        i = i + 1;
    }
    true
}

/// The format that an extension stands for, if it is one that is read.
pub fn format_for_extension(ext: &str) -> (format: Option<SourceFormat>)
    ensures
        format == format_of_extension(ext@),
{
    let jpg: Vec<char> = vec!['j', 'p', 'g'];
    let jpeg: Vec<char> = vec!['j', 'p', 'e', 'g'];
    let png: Vec<char> = vec!['p', 'n', 'g'];
    let webp: Vec<char> = vec!['w', 'e', 'b', 'p'];
    let bmp: Vec<char> = vec!['b', 'm', 'p'];
    assert(jpg@ =~= seq!['j', 'p', 'g']);
    assert(jpeg@ =~= seq!['j', 'p', 'e', 'g']);
    assert(png@ =~= seq!['p', 'n', 'g']);
    assert(webp@ =~= seq!['w', 'e', 'b', 'p']);
    assert(bmp@ =~= seq!['b', 'm', 'p']);
    if spells_word(ext, &jpg) || spells_word(ext, &jpeg) {
        Some(SourceFormat::Jpeg)
    } else if spells_word(ext, &png) {
        Some(SourceFormat::Png)
    } else if spells_word(ext, &webp) {
        Some(SourceFormat::WebP)
    } else if spells_word(ext, &bmp) {
        Some(SourceFormat::Bmp)
    } else {
        None
    }
}

/// The format that a file name promises, by its extension. Files for which
/// this is `None` are not images to this library.
pub fn source_format(name: &str) -> (format: Option<SourceFormat>)
    ensures
        format == format_of_name(name@),
{
    match extension(name) {
        Some(ext) => format_for_extension(ext.as_str()),
        None => None,
    }
}

/// Extension of every output file.
pub open spec fn jpg_extension() -> Seq<char> {
    seq!['.', 'j', 'p', 'g']
}

/// Suffix that keeps an output apart from its input.
pub open spec fn fallback_suffix() -> Seq<char> {
    seq!['_', 'o', 'p', 't']
}

/// Extension of the file that a write goes to before it is renamed.
pub open spec fn temp_extension() -> Seq<char> {
    seq!['.', 't', 'm', 'p', '_', 'w', 'r', 'i', 't', 'i', 'n', 'g']
}

/// What is appended to the stem: nothing where the original name is kept,
/// else a suffix that tells the mode.
pub open spec fn suffix_of(mode: ProcessMode, keep_original_name: bool) -> Seq<char> {
    if keep_original_name {
        Seq::empty()
    } else {
        match mode {
            ProcessMode::WeChat => seq!['_', 'x', 'i', 'a', 'o'],
            ProcessMode::HD => seq!['_', 'h', 'd', 'x', 'i', 'a', 'o'],
            ProcessMode::Custom => fallback_suffix(),
        }
    }
}

/// `{stem}{suffix}.jpg`
pub open spec fn output_name(stem: Seq<char>, suffix: Seq<char>) -> Seq<char> {
    stem + suffix + jpg_extension()
}

/// Directory and file name of an output, as sequences of characters.
pub struct TargetModel {
    pub dir: Seq<char>,
    pub file_name: Seq<char>,
}

/// Where the output of an input goes.
///
/// With `overwrite` it is the input itself. Otherwise the name is
/// `{stem}{suffix}.jpg` in the configured directory, or beside the input
/// where none is configured; should that be the input itself, the suffix
/// `_opt` is forced.
pub open spec fn output_target(config: ProcessConfig, input_dir: Seq<char>, input_name: Seq<char>)
    -> TargetModel {
    if config.overwrite {
        TargetModel { dir: input_dir, file_name: input_name }
    } else {
        let dir = match config.output_dir {
            Some(d) => d@,
            None => input_dir,
        };
        let stem = stem_of(input_name);
        let name = output_name(stem, suffix_of(config.mode, config.keep_original_name));
        if dir == input_dir && name == input_name {
            TargetModel { dir, file_name: output_name(stem, fallback_suffix()) }
        } else {
            TargetModel { dir, file_name: name }
        }
    }
}

/// The name of the temporary file beside `name`: its extension replaced by
/// `tmp_writing`.
pub open spec fn temp_name_of(name: Seq<char>) -> Seq<char> {
    stem_of(name) + temp_extension()
}

/// A name is never its own stem followed by a non-empty suffix and `.jpg`:
/// the stem would have to reach up to that last dot.
pub proof fn lemma_stem_not_extended(name: Seq<char>, suffix: Seq<char>)
    requires
        suffix.len() > 0,
    ensures
        output_name(stem_of(name), suffix) != name,
{
    let stem = stem_of(name);
    let built = output_name(stem, suffix);
    if built == name {
        let k = stem.len() + suffix.len();
        assert(built.len() == k + 4);
        assert(built[k as int] == jpg_extension()[0]);
        assert(name[k as int] == '.');
        lemma_last_dot(name);
        let i = last_dot(name).unwrap();
        assert(i >= k);
        assert(!(name =~= seq!['.', '.']));
        assert(split_point(name) == Some(i));
        assert(stem.len() == i);
    }
}

/// Without `overwrite`, the output never lands on the input: it differs
/// in directory or in file name, whatever the input is called.
pub proof fn lemma_output_avoids_input(
    config: ProcessConfig,
    input_dir: Seq<char>,
    input_name: Seq<char>,
)
    requires
        !config.overwrite,
    ensures
        output_target(config, input_dir, input_name).dir != input_dir || output_target(
            config,
            input_dir,
            input_name,
        ).file_name != input_name,
{
    lemma_stem_not_extended(input_name, fallback_suffix());
}

/// An output is always named `.jpg`, with the stem of its input in front,
/// unless it overwrites the input.
pub proof fn lemma_output_is_jpg(config: ProcessConfig, input_dir: Seq<char>, input_name: Seq<char>)
    requires
        !config.overwrite,
    ensures
        ({
            let name = output_target(config, input_dir, input_name).file_name;
            let stem = stem_of(input_name);
            &&& name.len() >= stem.len() + 4
            &&& name.subrange(0, stem.len() as int) == stem
            &&& name.subrange(name.len() - 4, name.len() as int) == jpg_extension()
        }),
{
    let name = output_target(config, input_dir, input_name).file_name;
    let stem = stem_of(input_name);
    assert(name.subrange(0, stem.len() as int) =~= stem);
    assert(name.subrange(name.len() - 4, name.len() as int) =~= jpg_extension());
}

/// The temporary file is another file than the one it stands in for,
/// unless that one carries the temporary extension itself.
pub proof fn lemma_temp_name_differs(name: Seq<char>)
    ensures
        temp_name_of(name) == name ==> extension_of(name) == Some(
            temp_extension().subrange(1, 12),
        ),
{
    let temp = temp_name_of(name);
    lemma_last_dot(name);
    if temp == name {
        match split_point(name) {
            Some(i) => {
                assert(temp.len() == i + 12);
                let tail = name.subrange(i + 1, name.len() as int);
                let word = temp_extension().subrange(1, 12);
                assert(tail.len() == word.len());
                assert forall|j: int| 0 <= j < tail.len() implies #[trigger] tail[j] == word[j] by {
                    assert(temp[i + 1 + j] == temp_extension()[1 + j]);
                }
                assert(tail =~= word);
            },
            None => {
                assert(temp.len() == name.len() + 12);
            },
        }
    }
}

/// A name built as `{stem}{suffix}.jpg` has the extension `jpg` or, where
/// stem and suffix are empty, none.
pub proof fn lemma_output_extension(stem: Seq<char>, suffix: Seq<char>)
    ensures
        match extension_of(output_name(stem, suffix)) {
            Some(ext) => ext == jpg_extension().subrange(1, 4),
            None => stem.len() + suffix.len() == 0,
        },
{
    let name = output_name(stem, suffix);
    let k = (stem.len() + suffix.len()) as int;
    assert(name.len() == k + 4);
    assert(name[k] == jpg_extension()[0]);
    assert(name[k + 1] == jpg_extension()[1]);
    assert(name[k + 2] == jpg_extension()[2]);
    assert(name[k + 3] == jpg_extension()[3]);
    lemma_last_dot(name);
    assert(last_dot(name) == Some(k));
    assert(!(name =~= seq!['.', '.']));
    if k > 0 {
        assert(name.subrange(k + 1, name.len() as int) =~= jpg_extension().subrange(1, 4));
    }
}

/// A write that does not overwrite its input never goes through a
/// temporary file that is the destination itself.
pub proof fn lemma_output_temp_differs(
    config: ProcessConfig,
    input_dir: Seq<char>,
    input_name: Seq<char>,
)
    requires
        !config.overwrite,
    ensures
        temp_name_of(output_target(config, input_dir, input_name).file_name) != output_target(
            config,
            input_dir,
            input_name,
        ).file_name,
{
    let name = output_target(config, input_dir, input_name).file_name;
    let stem = stem_of(input_name);
    lemma_temp_name_differs(name);
    lemma_output_extension(stem, suffix_of(config.mode, config.keep_original_name));
    lemma_output_extension(stem, fallback_suffix());
    if temp_name_of(name) == name {
        assert(extension_of(name).unwrap().len() == 11);
        assert(jpg_extension().subrange(1, 4).len() == 3);
    }
}

/// Directory and file name of an output.
#[derive(Debug)]
pub struct OutputTarget {
    pub dir: String,
    pub file_name: String,
}

impl OutputTarget {
    pub open spec fn model(&self) -> TargetModel {
        TargetModel { dir: self.dir@, file_name: self.file_name@ }
    }
}

/// The suffix that a mode appends to the stem.
pub fn mode_suffix(mode: ProcessMode, keep_original_name: bool) -> (suffix: &'static str)
    ensures
        suffix@ == suffix_of(mode, keep_original_name),
{
    proof {
        reveal_strlit("");
        reveal_strlit("_xiao");
        reveal_strlit("_hdxiao");
        reveal_strlit("_opt");
    }
    if keep_original_name {
        let s = "";
        assert(s@ =~= Seq::<char>::empty());
        s
    } else {
        match mode {
            ProcessMode::WeChat => {
                let s = "_xiao";
                assert(s@ =~= seq!['_', 'x', 'i', 'a', 'o']);
                s
            },
            ProcessMode::HD => {
                let s = "_hdxiao";
                assert(s@ =~= seq!['_', 'h', 'd', 'x', 'i', 'a', 'o']);
                s
            },
            ProcessMode::Custom => {
                let s = "_opt";
                assert(s@ =~= fallback_suffix());
                s
            },
        }
    }
}

/// Builds `{stem}{suffix}.jpg`.
pub fn build_output_name(stem: &str, suffix: &str) -> (name: String)
    ensures
        name@ == output_name(stem@, suffix@),
{
    proof {
        reveal_strlit(".jpg");
    }
    let ext = ".jpg";
    assert(ext@ =~= jpg_extension());
    let mut name = String::from_str(stem);
    name.append(suffix);
    name.append(ext);
    name
}

/// Derives where the output of the file `input_name` in `input_dir` goes.
pub fn get_output_path(config: &ProcessConfig, input_dir: &str, input_name: &str) -> (target:
    OutputTarget)
    ensures
        target.model() == output_target(*config, input_dir@, input_name@),
        !config.overwrite ==> target.dir@ != input_dir@ || target.file_name@ != input_name@,
{
    proof {
        if !config.overwrite {
            lemma_output_avoids_input(*config, input_dir@, input_name@);
        }
    }
    let own_dir = String::from_str(input_dir);
    let own_name = String::from_str(input_name);
    if config.overwrite {
        return OutputTarget { dir: own_dir, file_name: own_name };
    }
    let dir = match &config.output_dir {
        Some(d) => d.clone(),
        None => String::from_str(input_dir),
    };
    let stem = file_stem(input_name);
    let suffix = mode_suffix(config.mode, config.keep_original_name);
    let name = build_output_name(stem.as_str(), suffix);
    if dir == own_dir && name == own_name {
        proof {
            reveal_strlit("_opt");
        }
        let opt = "_opt";
        assert(opt@ =~= fallback_suffix());
        OutputTarget { dir, file_name: build_output_name(stem.as_str(), opt) }
    } else {
        OutputTarget { dir, file_name: name }
    }
}

/// The name of the temporary file that a write to `name` goes through.
pub fn temp_file_name(name: &str) -> (temp: String)
    ensures
        temp@ == temp_name_of(name@),
{
    proof {
        reveal_strlit(".tmp_writing");
    }
    let ext = ".tmp_writing";
    assert(ext@ =~= temp_extension());
    let mut temp = file_stem(name);
    temp.append(ext);
    temp
}

} // verus!
