//! Lexical path rules of the two path families, on path text.
use crate::text::{self, same, same_list, starts_with};
use vstd::prelude::*;
use vstd::string::*;

verus! {

/// The path and environment conventions of the host.
#[derive(Debug, Clone, Copy, PartialEq, Eq, Structural)]
pub enum Platform {
    Posix,
    Windows,
}

/// The namespace of a Windows path that has a prefix.
#[derive(Debug, Clone, Copy, PartialEq, Eq, Structural)]
pub enum WindowsProjectPathKind {
    Disk,
    VerbatimDisk,
    Unc,
    VerbatimUnc,
    /// The device namespace, or a verbatim path that is neither a disk nor a share.
    UnsupportedNamespace,
}

/// The characters that separate the components of a path.
#[derive(Debug, Clone, Copy, PartialEq, Eq, Structural)]
pub enum Separators {
    Slash,
    SlashOrBackslash,
    Backslash,
}

/// `c` is one of the separators.
pub open spec fn separates(separators: Separators, c: char) -> bool {
    match separators {
        Separators::Slash => c == '/',
        Separators::SlashOrBackslash => c == '/' || c == '\\',
        Separators::Backslash => c == '\\',
    }
}

/// The separators of the platform.
pub open spec fn usual_separators(platform: Platform) -> Separators {
    match platform {
        Platform::Posix => Separators::Slash,
        Platform::Windows => Separators::SlashOrBackslash,
    }
}

/// `c` separates path components.
pub open spec fn separator(platform: Platform, c: char) -> bool {
    separates(usual_separators(platform), c)
}

/// The text between separators, empty pieces included; there is always at least one piece.
pub open spec fn pieces(separators: Separators, s: Seq<char>) -> Seq<Seq<char>>
    decreases s.len(),
{
    if s.len() == 0 {
        seq![Seq::empty()]
    } else {
        let before = pieces(separators, s.drop_last());
        if separates(separators, s.last()) {
            before.push(Seq::empty())
        } else {
            before.drop_last().push(before.last().push(s.last()))
        }
    }
}

/// A piece that names something: not empty, and not the current directory, unless `dots` lets
/// that be a name like any other.
pub open spec fn naming(dots: bool, piece: Seq<char>) -> bool {
    piece.len() > 0 && (dots || piece != seq!['.'])
}

/// The naming pieces, in order.
pub open spec fn naming_pieces(dots: bool, parts: Seq<Seq<char>>) -> Seq<Seq<char>>
    decreases parts.len(),
{
    if parts.len() == 0 {
        Seq::empty()
    } else if naming(dots, parts.last()) {
        naming_pieces(dots, parts.drop_last()).push(parts.last())
    } else {
        naming_pieces(dots, parts.drop_last())
    }
}

/// The components of a path: its naming pieces.
pub open spec fn components(platform: Platform, s: Seq<char>) -> Seq<Seq<char>> {
    naming_pieces(false, pieces(usual_separators(platform), s))
}

/// `parts` with `between` between each two of them.
pub open spec fn joined(parts: Seq<Seq<char>>, between: Seq<char>) -> Seq<char>
    decreases parts.len(),
{
    if parts.len() == 0 {
        Seq::empty()
    } else if parts.len() == 1 {
        parts[0]
    } else {
        joined(parts.drop_last(), between) + between + parts.last()
    }
}

/// An ASCII letter, as a drive designator is.
pub open spec fn drive_letter(c: char) -> bool {
    'A' <= c <= 'Z' || 'a' <= c <= 'z'
}

/// `s` starts with a drive letter and a colon.
pub open spec fn drive_prefix(s: Seq<char>) -> bool {
    s.len() >= 2 && drive_letter(s[0]) && s[1] == ':'
}

/// `s` starts with two separators, a server name, a separator and a share name.
pub open spec fn share_prefix(s: Seq<char>) -> bool {
    &&& s.len() > 2
    &&& separator(Platform::Windows, s[0])
    &&& separator(Platform::Windows, s[1])
    &&& !separator(Platform::Windows, s[2])
    &&& exists|k: int|
        2 < k < s.len() - 1 && #[trigger] separator(Platform::Windows, s[k]) && !separator(
            Platform::Windows,
            s[k + 1],
        ) && forall|j: int| 2 < j < k ==> !separator(Platform::Windows, #[trigger] s[j])
}

/// `s` starts with the verbatim prefix `\\?\`.
pub open spec fn verbatim_prefix(s: Seq<char>) -> bool {
    seq!['\\', '\\', '?', '\\'].is_prefix_of(s)
}

/// `s` starts with the device prefix `\\.\`.
pub open spec fn device_prefix(s: Seq<char>) -> bool {
    s.len() >= 4 && separator(Platform::Windows, s[0]) && separator(Platform::Windows, s[1])
        && s[2] == '.' && separator(Platform::Windows, s[3])
}

/// The namespace of a Windows path, or nothing where it has no prefix.
pub open spec fn windows_path_kind(s: Seq<char>) -> Option<WindowsProjectPathKind> {
    if verbatim_prefix(s) {
        let rest = s.skip(4);
        if seq!['U', 'N', 'C'].is_prefix_of(rest) && rest.len() > 3 && separator(
            Platform::Windows,
            rest[3],
        ) {
            Some(WindowsProjectPathKind::VerbatimUnc)
        } else if drive_prefix(rest) && (rest.len() == 2 || separator(Platform::Windows, rest[2])) {
            Some(WindowsProjectPathKind::VerbatimDisk)
        } else {
            Some(WindowsProjectPathKind::UnsupportedNamespace)
        }
    } else if device_prefix(s) {
        Some(WindowsProjectPathKind::UnsupportedNamespace)
    } else if share_prefix(s) {
        Some(WindowsProjectPathKind::Unc)
    } else if drive_prefix(s) {
        Some(WindowsProjectPathKind::Disk)
    } else {
        None
    }
}

/// A path that does not depend on a current directory or a current drive.
pub open spec fn absolute(platform: Platform, s: Seq<char>) -> bool {
    match platform {
        Platform::Posix => s.len() > 0 && s[0] == '/',
        Platform::Windows => match windows_path_kind(s) {
            None => false,
            Some(WindowsProjectPathKind::Disk) => s.len() > 2 && separator(platform, s[2]),
            Some(_) => true,
        },
    }
}

/// Some component of the path is `..`.
pub open spec fn parent_traversal(platform: Platform, s: Seq<char>) -> bool {
    components(platform, s).contains(seq!['.', '.'])
}

/// The pieces of `head + tail` where `head` ends in a separator: those before it, then those of
/// `tail`.
proof fn pieces_after_separator(separators: Separators, head: Seq<char>, tail: Seq<char>)
    requires
        head.len() > 0,
        separates(separators, head.last()),
    ensures
        pieces(separators, head + tail) == pieces(separators, head).drop_last() + pieces(
            separators,
            tail,
        ),
        pieces(separators, tail).len() > 0,
    decreases tail.len(),
{
    let before = pieces(separators, head);
    if tail.len() == 0 {
        assert(head + tail =~= head);
        assert(before =~= before.drop_last() + pieces(separators, tail));
    } else {
        pieces_after_separator(separators, head, tail.drop_last());
        let shorter = pieces(separators, tail.drop_last());
        assert((head + tail).drop_last() =~= head + tail.drop_last());
        assert((head + tail).last() == tail.last());
        if separates(separators, tail.last()) {
            assert((before.drop_last() + shorter).push(Seq::empty()) =~= before.drop_last()
                + shorter.push(Seq::empty()));
        } else {
            let last = shorter.last().push(tail.last());
            assert((before.drop_last() + shorter).last() == shorter.last());
            assert((before.drop_last() + shorter).drop_last().push(last) =~= before.drop_last()
                + shorter.drop_last().push(last));
        }
    }
}

/// The naming pieces of two lists, one after the other.
proof fn naming_pieces_of_both(dots: bool, a: Seq<Seq<char>>, b: Seq<Seq<char>>)
    ensures
        naming_pieces(dots, a + b) == naming_pieces(dots, a) + naming_pieces(dots, b),
    decreases b.len(),
{
    if b.len() == 0 {
        assert(a + b =~= a);
        assert(naming_pieces(dots, a) + naming_pieces(dots, b) =~= naming_pieces(dots, a));
    } else {
        naming_pieces_of_both(dots, a, b.drop_last());
        assert((a + b).drop_last() =~= a + b.drop_last());
        assert(naming_pieces(dots, a + b) =~= naming_pieces(dots, a) + naming_pieces(dots, b));
    }
}

/// The components of a path with a separator before `at`: those before, then those after.
proof fn components_after(platform: Platform, s: Seq<char>, at: int)
    requires
        0 < at <= s.len(),
        separator(platform, s[at - 1]),
    ensures
        components(platform, s) == components(platform, s.take(at)) + components(
            platform,
            s.skip(at),
        ),
{
    let separators = usual_separators(platform);
    let head = s.take(at);
    let tail = s.skip(at);
    assert(s =~= head + tail);
    pieces_after_separator(separators, head, tail);
    pieces_after_separator(separators, head, Seq::empty());
    assert(head + Seq::<char>::empty() =~= head);
    let before = pieces(separators, head).drop_last();
    naming_pieces_of_both(false, before, pieces(separators, tail));
    naming_pieces_of_both(false, before, pieces(separators, Seq::empty()));
    assert(naming_pieces(false, before) =~= naming_pieces(false, before + seq![Seq::empty()]));
}

/// The namespace of a path: none on POSIX, or where it has no prefix.
pub open spec fn prefix_kind(platform: Platform, s: Seq<char>) -> Option<WindowsProjectPathKind> {
    match platform {
        Platform::Posix => None,
        Platform::Windows => windows_path_kind(s),
    }
}

/// A path whose components stand as they are written.
pub open spec fn verbatim(platform: Platform, s: Seq<char>) -> bool {
    platform == Platform::Windows && verbatim_prefix(s)
}

/// The separators of this path: in a verbatim path the backslash alone.
pub open spec fn own_separators(platform: Platform, s: Seq<char>) -> Separators {
    if verbatim(platform, s) {
        Separators::Backslash
    } else {
        usual_separators(platform)
    }
}

/// The place of the first separator at or after `from`, or the end.
pub open spec fn name_end(separators: Separators, s: Seq<char>, from: int) -> int
    decreases s.len() - from,
{
    if from >= s.len() || separates(separators, s[from]) {
        from
    } else {
        name_end(separators, s, from + 1)
    }
}

/// The end of the name at `from` and, where a second name follows its separator, of that one.
pub open spec fn two_names_end(separators: Separators, s: Seq<char>, from: int) -> int {
    let first = name_end(separators, s, from);
    if first + 1 < s.len() && !separates(separators, s[first + 1]) {
        name_end(separators, s, first + 1)
    } else {
        first
    }
}

/// Where the names of the prefix start: the drive, the server and the share, or the device.
pub open spec fn prefix_start(kind: Option<WindowsProjectPathKind>) -> int {
    match kind {
        None | Some(WindowsProjectPathKind::Disk) => 0,
        Some(WindowsProjectPathKind::Unc) => 2,
        Some(WindowsProjectPathKind::VerbatimUnc) => 8,
        Some(WindowsProjectPathKind::VerbatimDisk)
        | Some(WindowsProjectPathKind::UnsupportedNamespace) => 4,
    }
}

/// Where the prefix ends.
pub open spec fn prefix_end(platform: Platform, s: Seq<char>) -> int {
    let kind = prefix_kind(platform, s);
    match kind {
        None => 0,
        Some(WindowsProjectPathKind::Disk) | Some(WindowsProjectPathKind::VerbatimDisk) => {
            prefix_start(kind) + 2
        },
        Some(WindowsProjectPathKind::Unc) | Some(WindowsProjectPathKind::VerbatimUnc) => {
            two_names_end(own_separators(platform, s), s, prefix_start(kind))
        },
        Some(WindowsProjectPathKind::UnsupportedNamespace) => {
            name_end(own_separators(platform, s), s, prefix_start(kind))
        },
    }
}

/// The names of the prefix, as they are written.
pub open spec fn prefix_text(platform: Platform, s: Seq<char>) -> Seq<char> {
    s.subrange(prefix_start(prefix_kind(platform, s)), prefix_end(platform, s))
}

/// A separator follows the prefix.
pub open spec fn written_root(platform: Platform, s: Seq<char>) -> bool {
    prefix_end(platform, s) < s.len() && separator(platform, s[prefix_end(platform, s)])
}

/// The path starts at a root: one that is written, or that of a share or a device.
pub open spec fn rooted(platform: Platform, s: Seq<char>) -> bool {
    ||| written_root(platform, s)
    ||| !verbatim(platform, s) && match prefix_kind(platform, s) {
        None | Some(WindowsProjectPathKind::Disk) => false,
        Some(_) => true,
    }
}

/// What follows the prefix and the root.
pub open spec fn path_body(platform: Platform, s: Seq<char>) -> Seq<char> {
    if written_root(platform, s) {
        s.skip(prefix_end(platform, s) + 1)
    } else {
        s.skip(prefix_end(platform, s))
    }
}

/// The parts of the path after its prefix and its root. The current directory is a part where it
/// starts a path without either, and anywhere in a verbatim path.
pub open spec fn path_parts(platform: Platform, s: Seq<char>) -> Seq<Seq<char>> {
    let all = pieces(own_separators(platform, s), path_body(platform, s));
    let named = naming_pieces(verbatim(platform, s), all);
    if prefix_kind(platform, s) is None && !rooted(platform, s) && all[0] == seq!['.'] {
        seq![seq!['.']] + named
    } else {
        named
    }
}

/// Two paths have the same prefix: the same drive, in either case of its letter, or the same
/// names in the same namespace.
pub open spec fn same_prefix(platform: Platform, a: Seq<char>, b: Seq<char>) -> bool {
    &&& prefix_kind(platform, a) == prefix_kind(platform, b)
    &&& verbatim(platform, a) == verbatim(platform, b)
    &&& match prefix_kind(platform, a) {
        Some(WindowsProjectPathKind::Disk) | Some(WindowsProjectPathKind::VerbatimDisk) => {
            text::same_ignoring_ascii_case(prefix_text(platform, a), prefix_text(platform, b))
        },
        _ => pieces(own_separators(platform, a), prefix_text(platform, a)) == pieces(
            own_separators(platform, b),
            prefix_text(platform, b),
        ),
    }
}

/// Two paths have the same prefix, the same root and the same parts.
pub open spec fn same_path(platform: Platform, a: Seq<char>, b: Seq<char>) -> bool {
    &&& same_prefix(platform, a, b)
    &&& rooted(platform, a) == rooted(platform, b)
    &&& path_parts(platform, a) == path_parts(platform, b)
}

/// `c` with an ASCII lower-case letter turned into its upper-case letter.
pub open spec fn upper_letter(c: char) -> char {
    if 'a' <= c <= 'z' {
        ((c as u32 - 32) as u32) as char
    } else {
        c
    }
}

/// What separates the parts of an identity.
pub open spec fn identity_separator(platform: Platform) -> Seq<char> {
    match platform {
        Platform::Posix => seq!['/'],
        Platform::Windows => seq!['\\'],
    }
}

/// The root in an identity, where the path has one.
pub open spec fn identity_root(platform: Platform, s: Seq<char>) -> Seq<char> {
    if rooted(platform, s) {
        identity_separator(platform)
    } else {
        Seq::empty()
    }
}

/// The text that all spellings of one location share: repeated and trailing separators and `.`
/// parts are gone, a drive letter is in upper case, and the verbatim prefix of a drive or a share
/// is dropped.
pub open spec fn path_identity(platform: Platform, s: Seq<char>) -> Seq<char> {
    let kind = prefix_kind(platform, s);
    let between = identity_separator(platform);
    let parts = path_parts(platform, s);
    let names = pieces(own_separators(platform, s), prefix_text(platform, s));
    match kind {
        None => identity_root(platform, s) + joined(parts, between),
        Some(WindowsProjectPathKind::Disk) | Some(WindowsProjectPathKind::VerbatimDisk) => {
            seq![upper_letter(s[prefix_start(kind)]), ':'] + identity_root(platform, s) + joined(
                parts,
                between,
            )
        },
        Some(WindowsProjectPathKind::Unc) | Some(WindowsProjectPathKind::VerbatimUnc) => {
            seq!['\\', '\\'] + joined(names + parts, between)
        },
        Some(WindowsProjectPathKind::UnsupportedNamespace) => {
            seq!['\\', '\\'] + if verbatim(platform, s) {
                seq!['?', '\\']
            } else {
                seq!['.', '\\']
            } + joined(names + parts, between)
        },
    }
}

/// The last part of the path, or nothing where there is none or it is `.` or `..`.
pub open spec fn last_component(platform: Platform, s: Seq<char>) -> Option<Seq<char>> {
    let parts = path_parts(platform, s);
    if parts.len() == 0 || parts.last() == seq!['.'] || parts.last() == seq!['.', '.'] {
        None
    } else {
        Some(parts.last())
    }
}

/// `dir` is the directory that directly holds `file`: the same start, and one part less.
pub open spec fn directly_holds(platform: Platform, dir: Seq<char>, file: Seq<char>) -> bool {
    &&& same_prefix(platform, dir, file)
    &&& rooted(platform, dir) == rooted(platform, file)
    &&& path_parts(platform, file).len() > 0
    &&& path_parts(platform, file).drop_last() == path_parts(platform, dir)
}

/// Tells whether `c` is one of the separators.
fn is_one_of(separators: Separators, c: char) -> (r: bool)
    ensures
        r == separates(separators, c),
{
    match separators {
        Separators::Slash => c == '/',
        Separators::SlashOrBackslash => c == '/' || c == '\\',
        Separators::Backslash => c == '\\',
    }
}

fn platform_separators(platform: Platform) -> (r: Separators)
    ensures
        r == usual_separators(platform),
{
    match platform {
        Platform::Posix => Separators::Slash,
        Platform::Windows => Separators::SlashOrBackslash,
    }
}

/// Tells whether `c` separates path components.
pub fn is_separator(platform: Platform, c: char) -> (r: bool)
    ensures
        r == separator(platform, c),
{
    is_one_of(platform_separators(platform), c)
}

/// Returns the text between separators.
fn split_pieces(separators: Separators, s: &str) -> (r: Vec<String>)
    ensures
        text::list_view(r@) == pieces(separators, s@),
        r@.len() > 0,
{
    let chars = crate::text::chars_of(s);
    let n: usize = chars.len();
    let mut out: Vec<String> = Vec::new();
    let mut start: usize = 0;
    assert(s@.subrange(0, 0) =~= Seq::<char>::empty());
    assert(pieces(separators, s@.take(0)) =~= text::list_view(out@).push(s@.subrange(0, 0)));
    for i in 0..n
        invariant
            n == s@.len(),
            chars@ == s@,
            start <= i,
            pieces(separators, s@.take(i as int)) == text::list_view(out@).push(
                s@.subrange(start as int, i as int),
            ),
    {
        let ghost head = s@.take(i + 1);
        let ghost before = text::list_view(out@);
        assert(head.drop_last() =~= s@.take(i as int));
        assert(head.last() == s@[i as int]);
        if is_one_of(separators, chars[i]) {
            out.push(s.substring_char(start, i).to_owned());
            start = i + 1;
            assert(text::list_view(out@) =~= pieces(separators, s@.take(i as int)));
            assert(s@.subrange(start as int, i + 1) =~= Seq::<char>::empty());
        } else {
            assert(pieces(separators, s@.take(i as int)).drop_last() =~= before);
            assert(s@.subrange(start as int, i as int).push(s@[i as int]) =~= s@.subrange(
                start as int,
                i + 1,
            ));
        }
    }
    assert(s@.take(n as int) =~= s@);
    let ghost before = text::list_view(out@);
    out.push(s.substring_char(start, n).to_owned());
    assert(text::list_view(out@) =~= before.push(s@.subrange(start as int, n as int)));
    out
}

/// Returns the pieces that name something, after `out`.
fn add_naming(out: Vec<String>, dots: bool, parts: &Vec<String>) -> (r: Vec<String>)
    ensures
        text::list_view(r@) == text::list_view(out@) + naming_pieces(dots, text::list_view(parts@)),
{
    proof {
        reveal_strlit(".");
    }
    assert("."@ =~= seq!['.']);
    let ghost all = text::list_view(parts@);
    let ghost first = text::list_view(out@);
    let mut r = out;
    assert(all.take(0) =~= Seq::empty());
    assert(text::list_view(r@) =~= first + naming_pieces(dots, all.take(0)));
    for i in 0..parts.len()
        invariant
            all == text::list_view(parts@),
            "."@ == seq!['.'],
            text::list_view(r@) == first + naming_pieces(dots, all.take(i as int)),
    {
        assert(all.take(i + 1).drop_last() =~= all.take(i as int));
        assert(all.take(i + 1).last() == parts@[i as int]@);
        let piece = parts[i].as_str();
        if !piece.is_empty() && (dots || !same(piece, ".")) {
            let ghost before = text::list_view(r@);
            r.push(piece.to_owned());
            assert(text::list_view(r@) =~= before.push(piece@));
            assert(text::list_view(r@) =~= first + naming_pieces(dots, all.take(i + 1)));
        }
    }
    assert(all.take(parts@.len() as int) =~= all);
    r
}

/// Returns the components of the path `s`.
pub fn path_components(platform: Platform, s: &str) -> (r: Vec<String>)
    ensures
        text::list_view(r@) == components(platform, s@),
{
    let none: Vec<String> = Vec::new();
    let r = add_naming(none, false, &split_pieces(platform_separators(platform), s));
    assert(text::list_view(none@) =~= Seq::empty());
    assert(text::list_view(r@) =~= components(platform, s@));
    r
}

/// Returns `parts` with `between` between each two of them.
pub fn join_texts(parts: &Vec<String>, between: &str) -> (r: String)
    ensures
        r@ == joined(text::list_view(parts@), between@),
{
    let mut out: String = String::new();
    let ghost all = text::list_view(parts@);
    assert(all.take(0) =~= Seq::empty());
    for i in 0..parts.len()
        invariant
            all == text::list_view(parts@),
            out@ == joined(all.take(i as int), between@),
    {
        assert(all.take(i + 1).drop_last() =~= all.take(i as int));
        if i > 0 {
            out.append(between);
        }
        out.append(parts[i].as_str());
        assert(out@ =~= joined(all.take(i + 1), between@));
    }
    assert(all.take(parts@.len() as int) =~= all);
    out
}

/// Tells whether `s` starts with a drive letter and a colon, from `at` on.
fn has_drive_at(chars: &Vec<char>, at: usize) -> (r: bool)
    requires
        at <= chars@.len(),
    ensures
        r == drive_prefix(chars@.skip(at as int)),
{
    let n: usize = chars.len();
    n - at >= 2 && (('A' <= chars[at] && chars[at] <= 'Z') || ('a' <= chars[at] && chars[at] <= 'z'))
        && chars[at + 1] == ':'
}

fn has_share_prefix(chars: &Vec<char>) -> (r: bool)
    ensures
        r == share_prefix(chars@),
{
    let n: usize = chars.len();
    if n <= 2 || !is_separator(Platform::Windows, chars[0]) || !is_separator(
        Platform::Windows,
        chars[1],
    ) || is_separator(Platform::Windows, chars[2]) {
        return false;
    }
    let mut k: usize = 3;
    while k < n && !is_separator(Platform::Windows, chars[k])
        invariant
            n == chars@.len(),
            3 <= k <= n,
            forall|j: int| 2 < j < k ==> !separator(Platform::Windows, #[trigger] chars@[j]),
        decreases n - k,
    {
        k = k + 1;
    }
    if k < n && n - k >= 2 && !is_separator(Platform::Windows, chars[k + 1]) {
        assert(separator(Platform::Windows, chars@[k as int]));
        return true;
    }
    proof {
        if share_prefix(chars@) {
            let w = choose|w: int|
                2 < w < chars@.len() - 1 && #[trigger] separator(Platform::Windows, chars@[w])
                    && !separator(Platform::Windows, chars@[w + 1]) && forall|j: int|
                    2 < j < w ==> !separator(Platform::Windows, #[trigger] chars@[j]);
            assert(w == k);
        }
    }
    false
}

/// Returns the namespace of a Windows path, or nothing where it has no prefix.
pub fn windows_project_path_kind(path: &str) -> (r: Option<WindowsProjectPathKind>)
    ensures
        r == windows_path_kind(path@),
{
    proof {
        reveal_strlit("\\\\?\\");
        reveal_strlit("UNC");
    }
    assert("\\\\?\\"@ =~= seq!['\\', '\\', '?', '\\']);
    assert("UNC"@ =~= seq!['U', 'N', 'C']);
    let chars = crate::text::chars_of(path);
    let n: usize = chars.len();
    if starts_with(path, "\\\\?\\") {
        assert(chars@.skip(4) == path@.skip(4));
        let rest = path.substring_char(4, n);
        assert(rest@ =~= path@.skip(4));
        if starts_with(rest, "UNC") && n > 7 && is_separator(Platform::Windows, chars[7]) {
            Some(WindowsProjectPathKind::VerbatimUnc)
        } else if has_drive_at(&chars, 4) && (n == 6 || is_separator(
            Platform::Windows,
            chars[6],
        )) {
            Some(WindowsProjectPathKind::VerbatimDisk)
        } else {
            Some(WindowsProjectPathKind::UnsupportedNamespace)
        }
    } else if n >= 4 && is_separator(Platform::Windows, chars[0]) && is_separator(
        Platform::Windows,
        chars[1],
    ) && chars[2] == '.' && is_separator(Platform::Windows, chars[3]) {
        Some(WindowsProjectPathKind::UnsupportedNamespace)
    } else if has_share_prefix(&chars) {
        Some(WindowsProjectPathKind::Unc)
    } else {
        assert(chars@.skip(0) =~= chars@);
        if has_drive_at(&chars, 0) {
            Some(WindowsProjectPathKind::Disk)
        } else {
            None
        }
    }
}

/// Tells whether `path` is absolute.
pub fn is_absolute(platform: Platform, path: &str) -> (r: bool)
    ensures
        r == absolute(platform, path@),
{
    let chars = crate::text::chars_of(path);
    match platform {
        Platform::Posix => chars.len() > 0 && chars[0] == '/',
        Platform::Windows => match windows_project_path_kind(path) {
            None => false,
            Some(WindowsProjectPathKind::Disk) => chars.len() > 2 && is_separator(
                platform,
                chars[2],
            ),
            Some(_) => true,
        },
    }
}

/// Tells whether some component of `path` is `..`.
pub fn project_path_has_parent_traversal(platform: Platform, path: &str) -> (r: bool)
    ensures
        r == parent_traversal(platform, path@),
{
    proof {
        reveal_strlit("..");
    }
    assert(".."@ =~= seq!['.', '.']);
    crate::text::list_contains(&path_components(platform, path), "..")
}

/// What a path starts with.
struct PathStart {
    kind: Option<WindowsProjectPathKind>,
    verbatim: bool,
    names: usize,
    end: usize,
    written_root: bool,
    rooted: bool,
}

impl PathStart {
    /// This is the start of the path `s`.
    spec fn starts(self, platform: Platform, s: Seq<char>) -> bool {
        &&& self.kind == prefix_kind(platform, s)
        &&& self.verbatim == verbatim(platform, s)
        &&& self.names == prefix_start(self.kind)
        &&& self.end == prefix_end(platform, s)
        &&& self.written_root == written_root(platform, s)
        &&& self.rooted == rooted(platform, s)
        &&& self.names <= self.end <= s.len()
    }
}

fn find_name_end(separators: Separators, chars: &Vec<char>, from: usize) -> (r: usize)
    requires
        from <= chars@.len(),
    ensures
        r == name_end(separators, chars@, from as int),
        from <= r <= chars@.len(),
{
    let n: usize = chars.len();
    let mut at: usize = from;
    while at < n && !is_one_of(separators, chars[at])
        invariant
            n == chars@.len(),
            from <= at <= n,
            name_end(separators, chars@, from as int) == name_end(separators, chars@, at as int),
        decreases n - at,
    {
        at = at + 1;
    }
    at
}

fn find_two_names_end(separators: Separators, chars: &Vec<char>, from: usize) -> (r: usize)
    requires
        from <= chars@.len(),
    ensures
        r == two_names_end(separators, chars@, from as int),
        from <= r <= chars@.len(),
{
    let n: usize = chars.len();
    let first = find_name_end(separators, chars, from);
    if first < n && n - first > 1 && !is_one_of(separators, chars[first + 1]) {
        find_name_end(separators, chars, first + 1)
    } else {
        first
    }
}

fn separators_in(platform: Platform, verbatim: bool) -> (r: Separators)
    ensures
        r == if verbatim {
            Separators::Backslash
        } else {
            usual_separators(platform)
        },
{
    if verbatim {
        Separators::Backslash
    } else {
        platform_separators(platform)
    }
}

fn path_start(platform: Platform, s: &str) -> (r: PathStart)
    ensures
        r.starts(platform, s@),
{
    proof {
        reveal_strlit("\\\\?\\");
    }
    assert("\\\\?\\"@ =~= seq!['\\', '\\', '?', '\\']);
    let chars = crate::text::chars_of(s);
    let n: usize = chars.len();
    let kind = match platform {
        Platform::Posix => None,
        Platform::Windows => windows_project_path_kind(s),
    };
    let verbatim = platform == Platform::Windows && starts_with(s, "\\\\?\\");
    let separators = separators_in(platform, verbatim);
    assert(verbatim ==> s@.skip(4).len() == s@.len() - 4);
    let (names, end): (usize, usize) = match kind {
        None => (0, 0),
        Some(WindowsProjectPathKind::Disk) => (0, 2),
        Some(WindowsProjectPathKind::VerbatimDisk) => (4, 6),
        Some(WindowsProjectPathKind::Unc) => (2, find_two_names_end(separators, &chars, 2)),
        Some(WindowsProjectPathKind::VerbatimUnc) => (
            8,
            find_two_names_end(separators, &chars, 8),
        ),
        Some(WindowsProjectPathKind::UnsupportedNamespace) => (
            4,
            find_name_end(separators, &chars, 4),
        ),
    };
    let written_root = end < n && is_separator(platform, chars[end]);
    let implied_root = !verbatim && match kind {
        None | Some(WindowsProjectPathKind::Disk) => false,
        Some(_) => true,
    };
    PathStart { kind, verbatim, names, end, written_root, rooted: written_root || implied_root }
}

/// Returns the parts of the path `s`, of which `start` is the start.
fn parts_after(platform: Platform, start: &PathStart, s: &str) -> (r: Vec<String>)
    requires
        start.starts(platform, s@),
    ensures
        text::list_view(r@) == path_parts(platform, s@),
{
    proof {
        reveal_strlit(".");
    }
    assert("."@ =~= seq!['.']);
    let n: usize = s.unicode_len();
    let from: usize = if start.written_root {
        start.end + 1
    } else {
        start.end
    };
    let body = s.substring_char(from, n);
    assert(body@ =~= path_body(platform, s@));
    let all = split_pieces(separators_in(platform, start.verbatim), body);
    let mut out: Vec<String> = Vec::new();
    assert(text::list_view(all@)[0] == all@[0]@);
    let current = match start.kind {
        None => !start.rooted && same(all[0].as_str(), "."),
        Some(_) => false,
    };
    if current {
        out.push(".".to_owned());
        assert(text::list_view(out@) =~= seq![seq!['.']]);
    } else {
        assert(text::list_view(out@) =~= Seq::empty());
    }
    let r = add_naming(out, start.verbatim, &all);
    assert(text::list_view(r@) =~= path_parts(platform, s@));
    r
}

/// Returns the character at `at`, an ASCII lower-case letter in upper case.
fn upper_letter_text(s: &str, at: usize) -> (r: String)
    requires
        at < s@.len(),
    ensures
        r@ == seq![upper_letter(s@[at as int])],
{
    proof {
        reveal_strlit("ABCDEFGHIJKLMNOPQRSTUVWXYZ");
    }
    let n: usize = s.unicode_len();
    assert(at < n);
    let c = s.get_char(at);
    let letter: &str = if 'a' <= c && c <= 'z' {
        let k: usize = (c as u32 - 97) as usize;
        assert(forall|i: int|
            0 <= i < 26 ==> (#[trigger] "ABCDEFGHIJKLMNOPQRSTUVWXYZ"@[i]) as u32 == i + 65);
        "ABCDEFGHIJKLMNOPQRSTUVWXYZ".substring_char(k, k + 1)
    } else {
        s.substring_char(at, at + 1)
    };
    assert(letter@ =~= seq![upper_letter(s@[at as int])]);
    letter.to_owned()
}

/// Returns the text that all spellings of the location `root` share.
pub fn configured_skill_root_identity(platform: Platform, root: &str) -> (r: String)
    ensures
        r@ == path_identity(platform, root@),
{
    proof {
        reveal_strlit("");
        reveal_strlit("/");
        reveal_strlit(":");
        reveal_strlit("\\");
        reveal_strlit("\\\\");
        reveal_strlit("\\\\?\\");
        reveal_strlit("\\\\.\\");
    }
    assert(""@ =~= Seq::empty());
    assert("/"@ =~= seq!['/']);
    assert("\\"@ =~= seq!['\\']);
    let start = path_start(platform, root);
    let between = match platform {
        Platform::Posix => "/",
        Platform::Windows => "\\",
    };
    let shown_root = if start.rooted {
        between
    } else {
        ""
    };
    assert(shown_root@ == identity_root(platform, root@));
    let parts = parts_after(platform, &start, root);
    let r = match start.kind {
        None => shown_root.to_owned().concat(join_texts(&parts, between).as_str()),
        Some(WindowsProjectPathKind::Disk) | Some(WindowsProjectPathKind::VerbatimDisk) => {
            upper_letter_text(root, start.names).concat(":").concat(shown_root).concat(
                join_texts(&parts, between).as_str(),
            )
        },
        Some(kind) => {
            let head = match kind {
                WindowsProjectPathKind::UnsupportedNamespace => if start.verbatim {
                    "\\\\?\\"
                } else {
                    "\\\\.\\"
                },
                _ => "\\\\",
            };
            let named = root.substring_char(start.names, start.end);
            let mut names = split_pieces(separators_in(platform, start.verbatim), named);
            let ghost first = text::list_view(names@);
            let mut rest = parts;
            let ghost second = text::list_view(rest@);
            names.append(&mut rest);
            assert(text::list_view(names@) =~= first + second);
            head.to_owned().concat(join_texts(&names, between).as_str())
        },
    };
    assert(r@ =~= path_identity(platform, root@));
    r
}

/// Tells whether the two paths, of which these are the starts, have the same prefix.
fn is_same_prefix(
    platform: Platform,
    a: &str,
    a_start: &PathStart,
    b: &str,
    b_start: &PathStart,
) -> (r: bool)
    requires
        a_start.starts(platform, a@),
        b_start.starts(platform, b@),
    ensures
        r == same_prefix(platform, a@, b@),
{
    if a_start.kind != b_start.kind || a_start.verbatim != b_start.verbatim {
        return false;
    }
    let x = a.substring_char(a_start.names, a_start.end);
    let y = b.substring_char(b_start.names, b_start.end);
    match a_start.kind {
        Some(WindowsProjectPathKind::Disk) | Some(WindowsProjectPathKind::VerbatimDisk) => {
            crate::text::eq_ignore_ascii_case(x, y)
        },
        _ => same_list(
            &split_pieces(separators_in(platform, a_start.verbatim), x),
            &split_pieces(separators_in(platform, b_start.verbatim), y),
        ),
    }
}

/// Tells whether `a` and `b` are the same path, whatever separators stand twice or at the end.
pub fn is_same_path(platform: Platform, a: &str, b: &str) -> (r: bool)
    ensures
        r == same_path(platform, a@, b@),
{
    let x = path_start(platform, a);
    let y = path_start(platform, b);
    is_same_prefix(platform, a, &x, b, &y) && x.rooted == y.rooted && same_list(
        &parts_after(platform, &x, a),
        &parts_after(platform, &y, b),
    )
}

/// Returns the last part of `path`, or nothing where there is none or it is `.` or `..`.
pub fn file_name(platform: Platform, path: &str) -> (r: Option<String>)
    ensures
        crate::text::option_view(r) == last_component(platform, path@),
{
    proof {
        reveal_strlit(".");
        reveal_strlit("..");
    }
    assert("."@ =~= seq!['.']);
    assert(".."@ =~= seq!['.', '.']);
    let parts = parts_after(platform, &path_start(platform, path), path);
    assert(text::list_view(parts@).len() == parts@.len());
    if parts.len() == 0 {
        return None;
    }
    let last = parts[parts.len() - 1].clone();
    assert(last@ == text::list_view(parts@).last());
    if same(last.as_str(), ".") || same(last.as_str(), "..") {
        None
    } else {
        Some(last)
    }
}

/// Tells whether `dir` is the directory that directly holds `file`.
pub fn is_direct_parent(platform: Platform, dir: &str, file: &str) -> (r: bool)
    ensures
        r == directly_holds(platform, dir@, file@),
{
    let x = path_start(platform, dir);
    let y = path_start(platform, file);
    let outer = parts_after(platform, &x, dir);
    let mut inner = parts_after(platform, &y, file);
    assert(text::list_view(inner@).len() == inner@.len());
    if !is_same_prefix(platform, dir, &x, file, &y) || x.rooted != y.rooted || inner.len() == 0 {
        return false;
    }
    let ghost before = inner@;
    let _ = inner.pop();
    assert(text::list_view(inner@) =~= text::list_view(before).drop_last());
    same_list(&inner, &outer)
}

/// Being the same path is reflexive, symmetric and transitive.
pub proof fn same_path_is_an_equivalence(
    platform: Platform,
    a: Seq<char>,
    b: Seq<char>,
    c: Seq<char>,
)
    ensures
        same_path(platform, a, a),
        same_path(platform, a, b) ==> same_path(platform, b, a),
        same_path(platform, a, b) && same_path(platform, b, c) ==> same_path(platform, a, c),
{
}

/// On POSIX a separator at the end of a path leaves it the same path.
pub proof fn trailing_slash_is_the_same_path(s: Seq<char>)
    requires
        s.len() > 0,
    ensures
        same_path(Platform::Posix, s, s.push('/')),
{
    let body = path_body(Platform::Posix, s);
    assert(path_body(Platform::Posix, s.push('/')) =~= body.push('/'));
    assert(body.push('/').drop_last() =~= body);
    let all = pieces(Separators::Slash, body);
    some_piece(Separators::Slash, body);
    assert(all.push(Seq::empty()).drop_last() =~= all);
    assert(s.subrange(0, 0) =~= s.push('/').subrange(0, 0));
}

proof fn some_piece(separators: Separators, s: Seq<char>)
    ensures
        pieces(separators, s).len() > 0,
    decreases s.len(),
{
    if s.len() > 0 {
        some_piece(separators, s.drop_last());
    }
}

/// Spellings of one path have the same identity, whatever separators stand twice or at the end,
/// whatever `.` stands between the parts, and in whatever case the letter of a drive is.
pub proof fn spellings_share_their_identity(platform: Platform, a: Seq<char>, b: Seq<char>)
    requires
        same_path(platform, a, b),
    ensures
        path_identity(platform, a) == path_identity(platform, b),
{
    let kind = prefix_kind(platform, a);
    match kind {
        Some(WindowsProjectPathKind::Disk) | Some(WindowsProjectPathKind::VerbatimDisk) => {
            let at = prefix_start(kind);
            assert(prefix_text(platform, a)[0] == a[at]);
            assert(prefix_text(platform, b)[0] == b[at]);
            assert(upper_letter(a[at]) == upper_letter(b[at]));
        },
        _ => {},
    }
}

/// Two absolute POSIX paths with the same components are the same path, and have the same
/// identity.
pub proof fn absolute_posix_paths_compare_by_components(a: Seq<char>, b: Seq<char>)
    requires
        absolute(Platform::Posix, a),
        absolute(Platform::Posix, b),
        components(Platform::Posix, a) == components(Platform::Posix, b),
    ensures
        same_path(Platform::Posix, a, b),
        path_identity(Platform::Posix, a) == path_identity(Platform::Posix, b),
{
    parts_of_absolute_posix(a);
    parts_of_absolute_posix(b);
    assert(a.subrange(0, 0) =~= b.subrange(0, 0));
    spellings_share_their_identity(Platform::Posix, a, b);
}

proof fn parts_of_absolute_posix(s: Seq<char>)
    requires
        absolute(Platform::Posix, s),
    ensures
        path_parts(Platform::Posix, s) == components(Platform::Posix, s),
{
    components_after(Platform::Posix, s, 1);
    reveal_with_fuel(pieces, 2);
    reveal_with_fuel(naming_pieces, 3);
    let root = s.take(1);
    assert(root.drop_last() =~= Seq::empty());
    let none = seq![Seq::<char>::empty()];
    assert(pieces(Separators::Slash, root) =~= none.push(Seq::empty()));
    assert(none.push(Seq::empty()).drop_last() =~= none);
    assert(none.drop_last() =~= Seq::empty());
    assert(naming_pieces(false, none) =~= Seq::empty());
    assert(components(Platform::Posix, root) =~= Seq::empty());
    assert(components(Platform::Posix, s) =~= components(Platform::Posix, s.skip(1)));
}

/// A path is split at its separators and nowhere else: the pieces of two texts with a separator
/// between them are those of the one and those of the other, and a text without a separator is one
/// piece.
pub proof fn paths_are_split_at_separators(
    separators: Separators,
    a: Seq<char>,
    c: char,
    b: Seq<char>,
)
    ensures
        separates(separators, c) <==> match separators {
            Separators::Slash => c == '/',
            Separators::Backslash => c == '\\',
            Separators::SlashOrBackslash => c == '/' || c == '\\',
        },
        separates(separators, c) ==> pieces(separators, a.push(c) + b) == pieces(separators, a)
            + pieces(separators, b),
        (forall|i: int| 0 <= i < a.len() ==> !separates(separators, #[trigger] a[i])) ==> pieces(
            separators,
            a,
        ) == seq![a],
{
    if separates(separators, c) {
        pieces_after_separator(separators, a.push(c), b);
        assert(a.push(c).drop_last() =~= a);
        assert(pieces(separators, a.push(c)).drop_last() =~= pieces(separators, a));
    }
    if forall|i: int| 0 <= i < a.len() ==> !separates(separators, #[trigger] a[i]) {
        one_piece_without_separators(separators, a);
    }
}

proof fn one_piece_without_separators(separators: Separators, a: Seq<char>)
    requires
        forall|i: int| 0 <= i < a.len() ==> !separates(separators, #[trigger] a[i]),
    ensures
        pieces(separators, a) == seq![a],
    decreases a.len(),
{
    if a.len() == 0 {
        assert(a =~= Seq::empty());
    } else {
        let less = a.drop_last();
        assert forall|i: int| 0 <= i < less.len() implies !separates(
            separators,
            #[trigger] less[i],
        ) by {
            assert(less[i] == a[i]);
        }
        one_piece_without_separators(separators, less);
        assert(seq![less].drop_last() =~= Seq::empty());
        assert(less.push(a.last()) =~= a);
        assert(pieces(separators, a) =~= seq![a]);
    }
}

/// The components of a path are its names: those before a separator and those after it, and of a
/// text without a separator the text itself, unless it is empty or a single dot.
pub proof fn components_are_the_names(platform: Platform, a: Seq<char>, c: char, b: Seq<char>)
    ensures
        separator(platform, c) <==> c == '/' || (platform == Platform::Windows && c == '\\'),
        separator(platform, c) ==> components(platform, a.push(c) + b) == components(platform, a)
            + components(platform, b),
        (forall|i: int| 0 <= i < a.len() ==> !separator(platform, #[trigger] a[i])) ==> components(
            platform,
            a,
        ) == if a.len() == 0 || a == seq!['.'] {
            Seq::empty()
        } else {
            seq![a]
        },
{
    let separators = usual_separators(platform);
    paths_are_split_at_separators(separators, a, c, b);
    naming_pieces_of_both(false, pieces(separators, a), pieces(separators, b));
    if forall|i: int| 0 <= i < a.len() ==> !separator(platform, #[trigger] a[i]) {
        one_piece_without_separators(separators, a);
        assert(seq![a].drop_last() =~= Seq::empty());
        reveal_with_fuel(naming_pieces, 2);
        assert(components(platform, a) =~= if a.len() == 0 || a == seq!['.'] {
            Seq::empty()
        } else {
            seq![a]
        });
    }
}

/// A path leads upwards exactly where one side of a separator does, and a text without a separator
/// exactly where it is two dots.
pub proof fn upward_paths_have_two_dots(platform: Platform, a: Seq<char>, c: char, b: Seq<char>)
    ensures
        separator(platform, c) ==> parent_traversal(platform, a.push(c) + b) == (parent_traversal(
            platform,
            a,
        ) || parent_traversal(platform, b)),
        (forall|i: int| 0 <= i < a.len() ==> !separator(platform, #[trigger] a[i]))
            ==> parent_traversal(platform, a) == (a == seq!['.', '.']),
{
    components_are_the_names(platform, a, c, b);
    let up = seq!['.', '.'];
    let x = components(platform, a);
    let y = components(platform, b);
    if x.contains(up) {
        assert((x + y)[x.index_of(up)] == up);
    }
    if y.contains(up) {
        assert((x + y)[x.len() + y.index_of(up)] == up);
    }
    if (x + y).contains(up) {
        let i = (x + y).index_of(up);
        if i < x.len() {
            assert(x[i] == up);
        } else {
            assert(y[i - x.len()] == up);
        }
    }
    if forall|i: int| 0 <= i < a.len() ==> !separator(platform, #[trigger] a[i]) {
        if a == up {
            assert(up.len() == 2 && seq!['.'].len() == 1);
            assert(x[0] == up);
        } else if x.contains(up) {
            assert(x[x.index_of(up)] == up);
        }
    }
}

/// What a Windows path begins with tells its kind: a letter and a colon a drive, two backslashes, a
/// question mark and a backslash a verbatim name, two separators, a dot and a separator a device,
/// and no path is of a kind that begins otherwise.
pub proof fn beginnings_tell_the_kind(s: Seq<char>)
    ensures
        windows_path_kind(s) == Some(WindowsProjectPathKind::Disk) <==> s.len() >= 2 && ('A' <= s[0]
            <= 'Z' || 'a' <= s[0] <= 'z') && s[1] == ':',
        ({
            let verbatim = s.len() >= 4 && s[0] == '\\' && s[1] == '\\' && s[2] == '?' && s[3]
                == '\\';
            let device = s.len() >= 4 && (s[0] == '/' || s[0] == '\\') && (s[1] == '/' || s[1]
                == '\\') && s[2] == '.' && (s[3] == '/' || s[3] == '\\');
            let disk = verbatim && s.len() >= 6 && ('A' <= s[4] <= 'Z' || 'a' <= s[4] <= 'z') && s[5]
                == ':' && (s.len() == 6 || s[6] == '/' || s[6] == '\\');
            let share = verbatim && s.len() > 7 && s[4] == 'U' && s[5] == 'N' && s[6] == 'C' && (
            s[7] == '/' || s[7] == '\\');
            &&& windows_path_kind(s) == Some(WindowsProjectPathKind::VerbatimDisk) <==> disk
            &&& windows_path_kind(s) == Some(WindowsProjectPathKind::VerbatimUnc) <==> share
            &&& windows_path_kind(s) == Some(WindowsProjectPathKind::UnsupportedNamespace)
                <==> device || (verbatim && !disk && !share)
            &&& windows_path_kind(s) == Some(WindowsProjectPathKind::Unc) ==> s.len() > 4 && (s[0]
                == '/' || s[0] == '\\') && (s[1] == '/' || s[1] == '\\') && s[2] != '/' && s[2]
                != '\\'
        }),
{
    let head = seq!['\\', '\\', '?', '\\'];
    if verbatim_prefix(s) {
        assert(s.subrange(0, 4) =~= head);
        assert(s.subrange(0, 4)[0] == s[0] && s.subrange(0, 4)[1] == s[1]);
        assert(s.subrange(0, 4)[2] == s[2] && s.subrange(0, 4)[3] == s[3]);
        let rest = s.skip(4);
        let unc = seq!['U', 'N', 'C'];
        if unc.is_prefix_of(rest) {
            assert(rest.subrange(0, 3) =~= unc);
            assert(rest.subrange(0, 3)[0] == s[4] && rest.subrange(0, 3)[1] == s[5]);
            assert(rest.subrange(0, 3)[2] == s[6]);
        } else if s.len() > 7 && s[4] == 'U' && s[5] == 'N' && s[6] == 'C' {
            assert(rest.subrange(0, 3) =~= unc);
        }
    } else if s.len() >= 4 && s[0] == '\\' && s[1] == '\\' && s[2] == '?' && s[3] == '\\' {
        assert(s.subrange(0, 4) =~= head);
    }
}

/// Two separators, the name of a server, a separator and the beginning of a share name a share,
/// unless the server is a dot or, after backslashes, a question mark.
pub proof fn servers_and_shares_are_told(
    first: char,
    second: char,
    server: Seq<char>,
    third: char,
    share: Seq<char>,
)
    requires
        first == '\\' || first == '/',
        second == '\\' || second == '/',
        third == '\\' || third == '/',
        server.len() > 0,
        forall|i: int| 0 <= i < server.len() ==> (#[trigger] server[i]) != '\\' && server[i] != '/',
        server != seq!['.'],
        server != seq!['?'],
        share.len() > 0,
        share[0] != '\\' && share[0] != '/',
    ensures
        windows_path_kind(seq![first, second] + server + seq![third] + share) == Some(
            WindowsProjectPathKind::Unc,
        ),
        absolute(Platform::Windows, seq![first, second] + server + seq![third] + share),
{
    let s = seq![first, second] + server + seq![third] + share;
    let k = 2 + server.len() as int;
    assert(s[0] == first && s[1] == second && s[2] == server[0]);
    assert(s[k] == third && s[k + 1] == share[0]);
    assert(!separator(Platform::Windows, server[0]));
    assert forall|j: int| 2 < j < k implies !separator(Platform::Windows, #[trigger] s[j]) by {
        assert(s[j] == server[j - 2]);
    }
    assert(separator(Platform::Windows, s[k]) && !separator(Platform::Windows, s[k + 1]));
    assert(share_prefix(s));
    if verbatim_prefix(s) {
        assert(s.subrange(0, 4) =~= seq!['\\', '\\', '?', '\\']);
        assert(s.subrange(0, 4)[2] == s[2] && s.subrange(0, 4)[3] == s[3]);
        if server.len() > 1 {
            assert(s[3] == server[1]);
        } else {
            assert(server =~= seq!['?']);
        }
    }
    if device_prefix(s) {
        if server.len() > 1 {
            assert(s[3] == server[1]);
        } else {
            assert(server =~= seq!['.']);
        }
    }
}

/// A POSIX path is absolute exactly where it begins with a slash, and a Windows path exactly where
/// a drive is followed by a separator or where it begins as a name of another kind.
pub proof fn absolute_paths_begin_at_a_root(s: Seq<char>)
    ensures
        absolute(Platform::Posix, s) <==> s.len() > 0 && s[0] == '/',
        absolute(Platform::Windows, s) <==> (s.len() > 2 && ('A' <= s[0] <= 'Z' || 'a' <= s[0]
            <= 'z') && s[1] == ':' && (s[2] == '/' || s[2] == '\\')) || (windows_path_kind(s) is Some
            && windows_path_kind(s) != Some(WindowsProjectPathKind::Disk)),
        absolute(Platform::Windows, s) ==> s.len() > 2,
{
    beginnings_tell_the_kind(s);
}

/// Names that are joined are told apart again where none holds what separates them.
pub proof fn joined_names_are_split_again(
    separators: Separators,
    c: char,
    parts: Seq<Seq<char>>,
)
    requires
        separates(separators, c),
        parts.len() > 0,
        forall|i: int, k: int|
            #![trigger parts[i][k]]
            0 <= i < parts.len() && 0 <= k < parts[i].len() ==> !separates(separators, parts[i][k]),
    ensures
        pieces(separators, joined(parts, seq![c])) == parts,
    decreases parts.len(),
{
    let last = parts.last();
    assert forall|k: int| 0 <= k < last.len() implies !separates(separators, #[trigger] last[k]) by {
        assert(parts[parts.len() - 1][k] == last[k]);
    }
    one_piece_without_separators(separators, last);
    if parts.len() == 1 {
        assert(parts =~= seq![last]);
    } else {
        let less = parts.drop_last();
        assert forall|i: int, k: int|
            #![trigger less[i][k]]
            0 <= i < less.len() && 0 <= k < less[i].len() implies !separates(
            separators,
            less[i][k],
        ) by {
            assert(parts[i][k] == less[i][k]);
        }
        joined_names_are_split_again(separators, c, less);
        let before = joined(less, seq![c]);
        paths_are_split_at_separators(separators, before, c, last);
        assert(before + seq![c] + last =~= before.push(c) + last);
        assert(less + seq![last] =~= parts);
    }
}

proof fn pieces_hold_no_separator(separators: Separators, s: Seq<char>)
    ensures
        forall|i: int, k: int|
            #![trigger pieces(separators, s)[i][k]]
            0 <= i < pieces(separators, s).len() && 0 <= k < pieces(separators, s)[i].len()
                ==> !separates(separators, pieces(separators, s)[i][k]),
    decreases s.len(),
{
    if s.len() > 0 {
        let less = s.drop_last();
        pieces_hold_no_separator(separators, less);
        some_piece(separators, less);
        let before = pieces(separators, less);
        let after = pieces(separators, s);
        assert forall|i: int, k: int|
            #![trigger after[i][k]]
            0 <= i < after.len() && 0 <= k < after[i].len() implies !separates(
            separators,
            after[i][k],
        ) by {
            if i < before.len() - 1 {
                assert(after[i] == before[i]);
                assert(!separates(separators, before[i][k]));
            } else if i == before.len() - 1 {
                if k < before[i].len() {
                    assert(after[i][k] == before[i][k]);
                }
            }
        }
    }
}

proof fn naming_pieces_are_pieces(dots: bool, parts: Seq<Seq<char>>)
    ensures
        forall|i: int|
            0 <= i < naming_pieces(dots, parts).len() ==> parts.contains(
                #[trigger] naming_pieces(dots, parts)[i],
            ) && naming_pieces(dots, parts)[i].len() > 0,
    decreases parts.len(),
{
    if parts.len() > 0 {
        let less = parts.drop_last();
        naming_pieces_are_pieces(dots, less);
        let named = naming_pieces(dots, parts);
        let before = naming_pieces(dots, less);
        assert forall|i: int| 0 <= i < named.len() implies parts.contains(#[trigger] named[i])
            && named[i].len() > 0 by {
            if i < before.len() {
                assert(named[i] == before[i]);
                assert(less.contains(before[i]));
                let j = less.index_of(before[i]);
                assert(parts[j] == less[j]);
            } else {
                assert(named[i] == parts.last());
                assert(parts[parts.len() - 1] == parts.last());
            }
        }
    }
}

/// Absolute POSIX paths are the same exactly where they have the same components, and their
/// identities are equal exactly there.
pub proof fn different_paths_are_told_apart(a: Seq<char>, b: Seq<char>)
    requires
        absolute(Platform::Posix, a),
        absolute(Platform::Posix, b),
    ensures
        path_identity(Platform::Posix, a) == path_identity(Platform::Posix, b) <==> components(
            Platform::Posix,
            a,
        ) == components(Platform::Posix, b),
        same_path(Platform::Posix, a, b) <==> components(Platform::Posix, a) == components(
            Platform::Posix,
            b,
        ),
{
    parts_of_absolute_posix(a);
    parts_of_absolute_posix(b);
    let x = components(Platform::Posix, a);
    let y = components(Platform::Posix, b);
    if x == y {
        absolute_posix_paths_compare_by_components(a, b);
    }
    if path_identity(Platform::Posix, a) == path_identity(Platform::Posix, b) {
        let one = joined(x, seq!['/']);
        let two = joined(y, seq!['/']);
        assert(path_identity(Platform::Posix, a).skip(1) =~= one);
        assert(path_identity(Platform::Posix, b).skip(1) =~= two);
        components_hold_no_slash(a);
        components_hold_no_slash(b);
        if x.len() > 0 {
            joined_names_are_split_again(Separators::Slash, '/', x);
        }
        if y.len() > 0 {
            joined_names_are_split_again(Separators::Slash, '/', y);
        }
        if x.len() == 0 && y.len() > 0 {
            assert(y == pieces(Separators::Slash, Seq::<char>::empty()));
            assert(y[0].len() == 0);
        }
        if y.len() == 0 && x.len() > 0 {
            assert(x == pieces(Separators::Slash, Seq::<char>::empty()));
            assert(x[0].len() == 0);
        }
        assert(x =~= y);
    }
}

proof fn components_hold_no_slash(s: Seq<char>)
    ensures
        ({
            let names = components(Platform::Posix, s);
            &&& forall|i: int| 0 <= i < names.len() ==> (#[trigger] names[i]).len() > 0
            &&& forall|i: int, k: int|
                #![trigger names[i][k]]
                0 <= i < names.len() && 0 <= k < names[i].len() ==> !separates(
                    Separators::Slash,
                    names[i][k],
                )
        }),
{
    let all = pieces(Separators::Slash, s);
    let names = components(Platform::Posix, s);
    naming_pieces_are_pieces(false, all);
    pieces_hold_no_separator(Separators::Slash, s);
    assert forall|i: int, k: int|
        #![trigger names[i][k]]
        0 <= i < names.len() && 0 <= k < names[i].len() implies !separates(
        Separators::Slash,
        names[i][k],
    ) by {
        assert(all.contains(names[i]));
        let j = all.index_of(names[i]);
        assert(all[j][k] == names[i][k]);
    }
}

/// A name after a directory and a slash stands directly in that directory, and is the name of the
/// file there; of absolute paths one stands directly in the other exactly where it has one
/// component more.
pub proof fn files_stand_in_their_directory(dir: Seq<char>, name: Seq<char>, file: Seq<char>)
    requires
        absolute(Platform::Posix, dir),
        absolute(Platform::Posix, file),
        name.len() > 0,
        forall|i: int| 0 <= i < name.len() ==> #[trigger] name[i] != '/',
        name != seq!['.'],
    ensures
        directly_holds(Platform::Posix, dir, dir.push('/') + name),
        name != seq!['.', '.'] ==> last_component(Platform::Posix, dir.push('/') + name) == Some(
            name,
        ),
        directly_holds(Platform::Posix, dir, file) <==> components(Platform::Posix, file).len() > 0
            && components(Platform::Posix, file).drop_last() == components(Platform::Posix, dir),
{
    let inside = dir.push('/') + name;
    assert(inside[0] == dir[0]);
    parts_of_absolute_posix(dir);
    parts_of_absolute_posix(file);
    parts_of_absolute_posix(inside);
    components_are_the_names(Platform::Posix, dir, '/', name);
    components_are_the_names(Platform::Posix, name, '/', name);
    assert(components(Platform::Posix, name) == seq![name]);
    assert(components(Platform::Posix, inside).drop_last() =~= components(Platform::Posix, dir));
    assert(components(Platform::Posix, inside).last() == name);
    assert(prefix_text(Platform::Posix, dir) =~= Seq::empty());
    assert(prefix_text(Platform::Posix, file) =~= Seq::empty());
    assert(prefix_text(Platform::Posix, inside) =~= Seq::empty());
}

/// A name without a slash is the name of its file.
pub proof fn bare_names_are_their_own(name: Seq<char>)
    requires
        name.len() > 0,
        forall|i: int| 0 <= i < name.len() ==> #[trigger] name[i] != '/',
        name != seq!['.'],
        name != seq!['.', '.'],
    ensures
        last_component(Platform::Posix, name) == Some(name),
{
    assert(path_body(Platform::Posix, name) =~= name);
    one_piece_without_separators(Separators::Slash, name);
    components_are_the_names(Platform::Posix, name, '/', name);
    assert(path_parts(Platform::Posix, name) =~= seq![name]);
}

proof fn name_ends_at(separators: Separators, s: Seq<char>, from: int, at: int)
    requires
        0 <= from <= at <= s.len(),
        forall|i: int| from <= i < at ==> !separates(separators, #[trigger] s[i]),
        at < s.len() ==> separates(separators, s[at]),
    ensures
        name_end(separators, s, from) == at,
    decreases at - from,
{
    if from < at {
        name_ends_at(separators, s, from + 1, at);
    }
}

/// A path on a drive is known by the letter of the drive, in whatever case, and by the names after
/// its root, whatever separators stand between them.
pub proof fn drive_paths_compare_by_letter_and_names(
    a: char,
    first: char,
    one: Seq<char>,
    b: char,
    second: char,
    two: Seq<char>,
)
    requires
        'A' <= a <= 'Z' || 'a' <= a <= 'z',
        'A' <= b <= 'Z' || 'a' <= b <= 'z',
        first == '/' || first == '\\',
        second == '/' || second == '\\',
    ensures
        same_path(Platform::Windows, seq![a, ':', first] + one, seq![b, ':', second] + two) <==> (
        text::ascii_lower(a) == text::ascii_lower(b) && components(Platform::Windows, one)
            == components(Platform::Windows, two)),
        path_identity(Platform::Windows, seq![a, ':', first] + one) == seq![
            upper_letter(a),
            ':',
            '\\',
        ] + joined(components(Platform::Windows, one), seq!['\\']),
{
    let x = seq![a, ':', first] + one;
    let y = seq![b, ':', second] + two;
    drive_path_parts(a, first, one);
    drive_path_parts(b, second, two);
    let p = prefix_text(Platform::Windows, x);
    let q = prefix_text(Platform::Windows, y);
    assert(p[0] == a && p[1] == ':' && q[0] == b && q[1] == ':');
    assert(text::same_ignoring_ascii_case(p, q) <==> text::ascii_lower(a) == text::ascii_lower(b))
    by {
        if text::same_ignoring_ascii_case(p, q) {
            assert(text::ascii_lower(p[0]) == text::ascii_lower(q[0]));
        }
    }
    assert(seq![upper_letter(a), ':'] + seq!['\\'] =~= seq![upper_letter(a), ':', '\\']);
}

proof fn drive_path_parts(letter: char, root: char, rest: Seq<char>)
    requires
        'A' <= letter <= 'Z' || 'a' <= letter <= 'z',
        root == '/' || root == '\\',
    ensures
        ({
            let s = seq![letter, ':', root] + rest;
            &&& prefix_kind(Platform::Windows, s) == Some(WindowsProjectPathKind::Disk)
            &&& !verbatim(Platform::Windows, s)
            &&& prefix_text(Platform::Windows, s) == seq![letter, ':']
            &&& rooted(Platform::Windows, s)
            &&& s[0] == letter
            &&& path_parts(Platform::Windows, s) == components(Platform::Windows, rest)
        }),
{
    let s = seq![letter, ':', root] + rest;
    assert(s[0] == letter && s[1] == ':' && s[2] == root);
    beginnings_tell_the_kind(s);
    if verbatim_prefix(s) {
        assert(s.subrange(0, 4) =~= seq!['\\', '\\', '?', '\\']);
        assert(s.subrange(0, 4)[1] == s[1]);
    }
    assert(prefix_text(Platform::Windows, s) =~= seq![letter, ':']);
    assert(path_body(Platform::Windows, s) =~= rest);
}

/// A path on a share is known by the server, the share and the names after them, whatever
/// separators stand between them.
pub proof fn share_paths_are_known_by_their_names(
    server: Seq<char>,
    share: Seq<char>,
    marks: (char, char, char, char),
    rest: Seq<char>,
)
    requires
        marks.0 == '\\' || marks.0 == '/',
        marks.1 == '\\' || marks.1 == '/',
        marks.2 == '\\' || marks.2 == '/',
        marks.3 == '\\' || marks.3 == '/',
        server.len() > 0,
        share.len() > 0,
        forall|i: int| 0 <= i < server.len() ==> (#[trigger] server[i]) != '\\' && server[i] != '/',
        forall|i: int| 0 <= i < share.len() ==> (#[trigger] share[i]) != '\\' && share[i] != '/',
        server != seq!['.'],
        server != seq!['?'],
    ensures
        path_identity(
            Platform::Windows,
            seq![marks.0, marks.1] + server + seq![marks.2] + (share + seq![marks.3] + rest),
        ) == seq!['\\', '\\'] + joined(
            seq![server, share] + components(Platform::Windows, rest),
            seq!['\\'],
        ),
{
    let all = Separators::SlashOrBackslash;
    let after = share + seq![marks.3] + rest;
    let s = seq![marks.0, marks.1] + server + seq![marks.2] + after;
    assert(after[0] == share[0]);
    servers_and_shares_are_told(marks.0, marks.1, server, marks.2, after);
    beginnings_tell_the_kind(s);
    if verbatim_prefix(s) {
        assert(s.subrange(0, 4) =~= seq!['\\', '\\', '?', '\\']);
    }
    let middle = 2 + server.len() as int;
    let end = middle + 1 + share.len() as int;
    assert forall|i: int| 2 <= i < middle implies !separates(all, #[trigger] s[i]) by {
        assert(s[i] == server[i - 2]);
    }
    assert(s[middle] == marks.2);
    name_ends_at(all, s, 2, middle);
    assert forall|i: int| middle + 1 <= i < end implies !separates(all, #[trigger] s[i]) by {
        assert(s[i] == share[i - middle - 1]);
    }
    assert(s[end] == marks.3);
    assert(s[middle + 1] == share[0]);
    name_ends_at(all, s, middle + 1, end);
    assert(prefix_end(Platform::Windows, s) == end);
    assert(prefix_text(Platform::Windows, s) =~= server.push(marks.2) + share);
    paths_are_split_at_separators(all, server, marks.2, share);
    one_piece_without_separators(all, server);
    one_piece_without_separators(all, share);
    assert(seq![server] + seq![share] =~= seq![server, share]);
    assert(path_body(Platform::Windows, s) =~= rest);
}

} // verus!
