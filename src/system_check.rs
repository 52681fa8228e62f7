//! What the application checks about the system it runs on: the helper
//! programs it needs, and the name of the distribution.

use vstd::prelude::*;
use crate::text::{join, lines, opt_text, spec_join, spec_lines};

verus! {

/// Which required helper programs are missing.
#[derive(Clone, Copy, Debug, PartialEq, Eq, Structural)]
pub struct DependencyCheckResult {
    pub flatpak_missing: bool,
    pub aur_helper_missing: bool,
}

pub open spec fn flatpak_name() -> Seq<char> {
    "flatpak"@
}

pub open spec fn aur_helper_name() -> Seq<char> {
    "paru or yay"@
}

pub open spec fn flatpak_hint() -> Seq<char> {
    "Install flatpak: <tt>sudo pacman -S flatpak</tt>"@
}

pub open spec fn aur_helper_hint() -> Seq<char> {
    "AUR Helper repositories:\n• Paru: <a href=\"https://github.com/Morganamilo/paru\">https://github.com/Morganamilo/paru</a>\n• Yay: <a href=\"https://github.com/Jguer/yay\">https://github.com/Jguer/yay</a>"@
}

pub open spec fn when(b: bool, s: Seq<char>) -> Seq<Seq<char>> {
    if b {
        seq![s]
    } else {
        seq![]
    }
}

/// Names of the missing programs, flatpak first.
pub open spec fn spec_missing(r: DependencyCheckResult) -> Seq<Seq<char>> {
    when(r.flatpak_missing, flatpak_name()) + when(r.aur_helper_missing, aur_helper_name())
}

/// A list item naming a missing program, in markup.
pub open spec fn bullet(name: Seq<char>) -> Seq<char> {
    "• <b>"@ + name + "</b>"@
}

pub open spec fn spec_hints(r: DependencyCheckResult) -> Seq<Seq<char>> {
    when(r.flatpak_missing, flatpak_hint()) + when(r.aur_helper_missing, aur_helper_hint())
}

fn push_when(v: &mut Vec<String>, b: bool, s: &str)
    ensures
        final(v).deep_view() == old(v).deep_view() + when(b, s@),
{
    let ghost before = v.deep_view();
    if b {
        v.push(s.to_owned());
    }
    assert(v.deep_view() =~= before + when(b, s@));
}

impl DependencyCheckResult {
    /// Whether any required program is missing.
    pub fn has_missing_dependencies(&self) -> (r: bool)
        ensures
            r == (self.flatpak_missing || self.aur_helper_missing),
            r == (spec_missing(*self).len() > 0),
    {
        self.flatpak_missing || self.aur_helper_missing
    }

    /// Names of the missing programs.
    pub fn missing_dependencies(&self) -> (r: Vec<String>)
        ensures
            r.deep_view() == spec_missing(*self),
    {
        let mut v: Vec<String> = Vec::new();
        assert(v.deep_view() =~= Seq::<Seq<char>>::empty());
        push_when(&mut v, self.flatpak_missing, "flatpak");
        push_when(&mut v, self.aur_helper_missing, "paru or yay");
        assert(v.deep_view() =~= spec_missing(*self));
        v
    }

    /// The missing programs as a markup list, one per line.
    pub fn format_missing_list(&self) -> (r: String)
        ensures
            r@ == spec_join(spec_missing(*self).map_values(|n: Seq<char>| bullet(n)), "\n"@),
    {
        let names = self.missing_dependencies();
        let mut items: Vec<String> = Vec::new();
        let mut i: usize = 0;
        while i < names.len()
            invariant
                i <= names@.len(),
                names.deep_view() == spec_missing(*self),
                items.deep_view() == names.deep_view().take(i as int).map_values(|n: Seq<char>| bullet(n)),
            decreases names@.len() - i,
        {
            let ghost before = items.deep_view();
            let mut item = "• <b>".to_owned();
            item.append(names[i].as_str());
            item.append("</b>");
            items.push(item);
            assert(items.deep_view() =~= before.push(bullet(names[i as int]@)));
            i = i + 1;
            assert(items.deep_view() =~= names.deep_view().take(i as int).map_values(|n: Seq<char>| bullet(n)));
        }
        assert(names.deep_view().take(i as int) =~= names.deep_view());
        join(&items, "\n")
    }

    /// How to install the missing programs, in markup; empty when nothing
    /// is missing.
    pub fn generate_install_hint(&self) -> (r: String)
        ensures
            r@ == spec_join(spec_hints(*self), "\n\n"@),
            !(self.flatpak_missing || self.aur_helper_missing) ==> r@.len() == 0,
    {
        let mut hints: Vec<String> = Vec::new();
        assert(hints.deep_view() =~= Seq::<Seq<char>>::empty());
        push_when(&mut hints, self.flatpak_missing, "Install flatpak: <tt>sudo pacman -S flatpak</tt>");
        push_when(
            &mut hints,
            self.aur_helper_missing,
            "AUR Helper repositories:\n• Paru: <a href=\"https://github.com/Morganamilo/paru\">https://github.com/Morganamilo/paru</a>\n• Yay: <a href=\"https://github.com/Jguer/yay\">https://github.com/Jguer/yay</a>",
        );
        assert(hints.deep_view() =~= spec_hints(*self));
        join(&hints, "\n\n")
    }
}

/// The result of probing for flatpak and for an AUR helper.
pub fn check_dependencies(flatpak_found: bool, aur_helper_found: bool) -> (r: DependencyCheckResult)
    ensures
        r.flatpak_missing == !flatpak_found,
        r.aur_helper_missing == !aur_helper_found,
{
    DependencyCheckResult { flatpak_missing: !flatpak_found, aur_helper_missing: !aur_helper_found }
}

pub open spec fn spec_has_prefix(s: Seq<char>, p: Seq<char>) -> bool {
    p.len() <= s.len() && s.take(p.len() as int) == p
}

/// `s` with every leading copy of `p` removed, as `str::trim_start_matches`
/// does.
pub open spec fn spec_trim_start(s: Seq<char>, p: Seq<char>) -> Seq<char>
    decreases s.len(),
{
    if p.len() > 0 && spec_has_prefix(s, p) {
        spec_trim_start(s.skip(p.len() as int), p)
    } else {
        s
    }
}

pub open spec fn trim_leading(s: Seq<char>, c: char) -> Seq<char>
    decreases s.len(),
{
    if s.len() > 0 && s[0] == c {
        trim_leading(s.drop_first(), c)
    } else {
        s
    }
}

pub open spec fn trim_trailing(s: Seq<char>, c: char) -> Seq<char>
    decreases s.len(),
{
    if s.len() > 0 && s.last() == c {
        trim_trailing(s.drop_last(), c)
    } else {
        s
    }
}

/// `s` without the copies of `c` at either end, as `str::trim_matches`.
pub open spec fn spec_trim_char(s: Seq<char>, c: char) -> Seq<char> {
    trim_trailing(trim_leading(s, c), c)
}

fn has_prefix(s: &str, p: &str) -> (r: bool)
    ensures
        r == spec_has_prefix(s@, p@),
{
    let n = s.unicode_len();
    let m = p.unicode_len();
    if m > n {
        return false;
    }
    let mut i: usize = 0;
    while i < m
        invariant
            n == s@.len(),
            m == p@.len(),
            m <= n,
            i <= m,
            s@.take(i as int) == p@.take(i as int),
        decreases m - i,
    {
        if s.get_char(i) != p.get_char(i) {
            assert(s@.take(m as int)[i as int] != p@[i as int]);
            return false;
        }
        assert(s@.take(i + 1) =~= s@.take(i as int).push(s@[i as int]));
        assert(p@.take(i + 1) =~= p@.take(i as int).push(p@[i as int]));
        i = i + 1;
    }
    assert(p@.take(m as int) =~= p@);
    true
}

fn trim_start_matches(s: &str, p: &str) -> (r: String)
    requires
        p@.len() > 0,
    ensures
        r@ == spec_trim_start(s@, p@),
{
    let mut cur: &str = s;
    while has_prefix(cur, p)
        invariant
            p@.len() > 0,
            spec_trim_start(s@, p@) == spec_trim_start(cur@, p@),
        decreases cur@.len(),
    {
        let ghost prev = cur@;
        let n = cur.unicode_len();
        let m = p.unicode_len();
        cur = cur.substring_char(m, n);
        assert(cur@ =~= prev.skip(m as int));
    }
    cur.to_owned()
}

proof fn lemma_trim_leading_skip(s: Seq<char>, c: char, k: int)
    requires
        0 <= k <= s.len(),
        forall|j: int| 0 <= j < k ==> s[j] == c,
    ensures
        trim_leading(s, c) == trim_leading(s.skip(k), c),
    decreases k,
{
    if k > 0 {
        assert(s.drop_first().skip(k - 1) =~= s.skip(k));
        lemma_trim_leading_skip(s.drop_first(), c, k - 1);
    } else {
        assert(s.skip(0) =~= s);
    }
}

proof fn lemma_trim_trailing_take(s: Seq<char>, c: char, k: int)
    requires
        0 <= k <= s.len(),
        forall|j: int| k <= j < s.len() ==> s[j] == c,
    ensures
        trim_trailing(s, c) == trim_trailing(s.take(k), c),
    decreases s.len() - k,
{
    if k < s.len() {
        assert(s.drop_last().take(k) =~= s.take(k));
        lemma_trim_trailing_take(s.drop_last(), c, k);
    } else {
        assert(s.take(k) =~= s);
    }
}

fn trim_matches(s: &str, c: char) -> (r: String)
    ensures
        r@ == spec_trim_char(s@, c),
{
    let n = s.unicode_len();
    let mut lo: usize = 0;
    while lo < n && s.get_char(lo) == c
        invariant
            n == s@.len(),
            lo <= n,
            forall|j: int| 0 <= j < lo ==> s@[j] == c,
        decreases n - lo,
    {
        lo = lo + 1;
    }
    proof {
        lemma_trim_leading_skip(s@, c, lo as int);
    }
    let ghost t = s@.skip(lo as int);
    assert(trim_leading(t, c) == t);
    let mut hi: usize = n;
    while hi > lo && s.get_char(hi - 1) == c
        invariant
            n == s@.len(),
            lo <= hi <= n,
            t == s@.skip(lo as int),
            forall|j: int| hi - lo <= j < t.len() ==> t[j] == c,
        decreases hi,
    {
        hi = hi - 1;
    }
    proof {
        lemma_trim_trailing_take(t, c, hi - lo);
        let u = t.take(hi - lo);
        if u.len() > 0 {
            assert(u.last() == s@[hi - 1]);
        }
        assert(u =~= s@.subrange(lo as int, hi as int));
    }
    s.substring_char(lo, hi).to_owned()
}

/// The value of `key` on `line`, when the line sets it: the rest of the line
/// after the key (repeated copies of the key removed), without surrounding
/// double quotes, and not empty.
pub open spec fn spec_field(line: Seq<char>, key: Seq<char>) -> Option<Seq<char>> {
    if spec_has_prefix(line, key) {
        let v = spec_trim_char(spec_trim_start(line, key), '"');
        if v.len() > 0 {
            Some(v)
        } else {
            None
        }
    } else {
        None
    }
}

/// The value of `key` on the first line that sets it.
pub open spec fn spec_first_field(lines: Seq<Seq<char>>, key: Seq<char>) -> Option<Seq<char>>
    decreases lines.len(),
{
    if lines.len() == 0 {
        None
    } else {
        match spec_field(lines[0], key) {
            Some(v) => Some(v),
            None => spec_first_field(lines.drop_first(), key),
        }
    }
}

fn field(line: &str, key: &str) -> (r: Option<String>)
    requires
        key@.len() > 0,
    ensures
        opt_text(r) == spec_field(line@, key@),
{
    if !has_prefix(line, key) {
        return None;
    }
    let rest = trim_start_matches(line, key);
    let v = trim_matches(rest.as_str(), '"');
    if v.unicode_len() > 0 {
        Some(v)
    } else {
        None
    }
}

fn first_field(lines: &Vec<String>, key: &str) -> (r: Option<String>)
    requires
        key@.len() > 0,
    ensures
        opt_text(r) == spec_first_field(lines.deep_view(), key@),
{
    let ghost all = lines.deep_view();
    let mut i: usize = 0;
    assert(all.skip(0) =~= all);
    while i < lines.len()
        invariant
            i <= lines@.len(),
            all == lines.deep_view(),
            key@.len() > 0,
            spec_first_field(all, key@) == spec_first_field(all.skip(i as int), key@),
        decreases lines@.len() - i,
    {
        assert(all.skip(i as int)[0] == lines[i as int]@);
        assert(all.skip(i as int).drop_first() =~= all.skip(i + 1));
        let v = field(lines[i].as_str(), key);
        if v.is_some() {
            return v;
        }
        i = i + 1;
    }
    assert(all.skip(i as int) =~= Seq::<Seq<char>>::empty());
    None
}

pub open spec fn or_else(a: Option<Seq<char>>, b: Option<Seq<char>>) -> Option<Seq<char>> {
    if a is Some {
        a
    } else {
        b
    }
}

/// The distribution's name in os-release text: `NAME`, else `PRETTY_NAME`,
/// else `ID`.
pub open spec fn spec_os_release_name(content: Seq<char>) -> Option<Seq<char>> {
    let ls = spec_lines(content);
    or_else(
        spec_first_field(ls, "NAME="@),
        or_else(spec_first_field(ls, "PRETTY_NAME="@), spec_first_field(ls, "ID="@)),
    )
}

/// The distribution's name in the text of an os-release file.
pub fn parse_os_release_name(content: &str) -> (r: Option<String>)
    ensures
        opt_text(r) == spec_os_release_name(content@),
{
    let ls = lines(content);
    proof {
        reveal_strlit("NAME=");
        reveal_strlit("PRETTY_NAME=");
        reveal_strlit("ID=");
    }
    let name = first_field(&ls, "NAME=");
    if name.is_some() {
        return name;
    }
    let pretty = first_field(&ls, "PRETTY_NAME=");
    if pretty.is_some() {
        return pretty;
    }
    first_field(&ls, "ID=")
}

pub open spec fn opt_name(o: Option<&str>) -> Option<Seq<char>> {
    match o {
        Some(c) => spec_os_release_name(c@),
        None => None,
    }
}

/// The distribution's name from the texts of `/etc/os-release`,
/// `/usr/lib/os-release` and `/etc/lsb-release`, in that order of
/// preference (`None`: the file could not be read).
pub fn get_distribution_name(etc_os_release: Option<&str>, usr_lib_os_release: Option<&str>, lsb_release: Option<&str>) -> (r: Option<String>)
    ensures
        opt_text(r) == or_else(
            opt_name(etc_os_release),
            or_else(
                opt_name(usr_lib_os_release),
                match lsb_release {
                    Some(c) => spec_first_field(spec_lines(c@), "DISTRIB_ID="@),
                    None => None,
                },
            ),
        ),
{
    if let Some(c) = etc_os_release {
        let n = parse_os_release_name(c);
        if n.is_some() {
            return n;
        }
    }
    if let Some(c) = usr_lib_os_release {
        let n = parse_os_release_name(c);
        if n.is_some() {
            return n;
        }
    }
    match lsb_release {
        Some(c) => {
            proof {
                reveal_strlit("DISTRIB_ID=");
            }
            first_field(&lines(c), "DISTRIB_ID=")
        },
        None => None,
    }
}

} // verus!
