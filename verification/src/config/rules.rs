//! Categorisation rules: which file extensions go to which folder.
use vstd::prelude::*;

use crate::paths::{opt_str_view, path_extension, path_extension_of};
use crate::text::{ascii_lowercase, strings_from, to_lowercase, unicode_lowercase};
use vstd::utf8::is_ascii_chars;

verus! {

/// A categorisation rule.
#[derive(Debug, Clone)]
pub struct CategorizationRule {
    /// Rule name
    pub name: String,
    /// File extensions to match (e.g., ["pdf", "docx"])
    pub extensions: Vec<String>,
    /// Destination folder (relative to Downloads)
    pub destination: String,
    /// Naming pattern (optional)
    pub naming_pattern: Option<String>,
    /// Priority (higher = evaluated first)
    pub priority: u32,
}

/// Some extension in `exts` equals `ext` once both are lowercased.
pub open spec fn extension_listed(exts: Seq<Seq<char>>, ext: Seq<char>) -> bool {
    exists|i: int| 0 <= i < exts.len() && #[trigger] unicode_lowercase(exts[i]) == unicode_lowercase(ext)
}

/// A rule matches a file whose extension is `ext` (`None`: the file has
/// none) when one of its extensions equals it, case aside.
pub open spec fn rule_matches_extension(rule: CategorizationRule, ext: Option<Seq<char>>) -> bool {
    match ext {
        Some(x) => extension_listed(rule.extensions.deep_view(), x),
        None => false,
    }
}

/// Some extension in `exts` equals `ext` once both are put in ASCII
/// lowercase.
pub open spec fn extension_listed_ascii(exts: Seq<Seq<char>>, ext: Seq<char>) -> bool {
    exists|i: int| 0 <= i < exts.len() && #[trigger] ascii_lowercase(exts[i]) == ascii_lowercase(ext)
}

/// Every extension of the rule is ASCII text.
pub open spec fn rule_is_ascii(rule: CategorizationRule) -> bool {
    forall|i: int| 0 <= i < rule.extensions@.len() ==> is_ascii_chars(#[trigger] rule.extensions@[i]@)
}

/// The rule has exactly these fields and no naming pattern.
pub open spec fn rule_is(
    rule: CategorizationRule,
    name: Seq<char>,
    exts: Seq<Seq<char>>,
    destination: Seq<char>,
    priority: u32,
) -> bool {
    &&& rule.name@ == name
    &&& rule.extensions.deep_view() == exts
    &&& rule.destination@ == destination
    &&& rule.naming_pattern is None
    &&& rule.priority == priority
}

/// The table of default rules.
pub open spec fn are_default_rules(rules: Seq<CategorizationRule>) -> bool {
    &&& rules.len() == 7
    &&& rule_is(rules[0], "Documents"@, seq!["pdf"@, "doc"@, "docx"@, "txt"@, "rtf"@], "Documents"@, 10)
    &&& rule_is(rules[1], "Images"@, seq!["jpg"@, "jpeg"@, "png"@, "gif"@, "bmp"@, "svg"@, "webp"@], "Pictures"@, 10)
    &&& rule_is(rules[2], "Videos"@, seq!["mp4"@, "avi"@, "mkv"@, "mov"@, "wmv"@, "flv"@], "Videos"@, 10)
    &&& rule_is(rules[3], "Music"@, seq!["mp3"@, "wav"@, "flac"@, "aac"@, "ogg"@, "wma"@], "Music"@, 10)
    &&& rule_is(rules[4], "Archives"@, seq!["zip"@, "rar"@, "7z"@, "tar"@, "gz"@, "bz2"@], "Archives"@, 10)
    &&& rule_is(rules[5], "Installers"@, seq!["exe"@, "msi"@, "dmg"@, "pkg"@], "Installers"@, 20)
    &&& rule_is(rules[6], "Code"@, seq!["js"@, "ts"@, "py"@, "rs"@, "go"@, "java"@, "cpp"@, "c"@, "h"@, "cs"@, "php"@, "rb"@, "sh"@], "Code"@, 10)
}

impl CategorizationRule {
    /// Check whether a file with extension `ext` matches this rule: some
    /// extension of the rule equals it once both are lowercased. For ASCII
    /// extensions that is: equal but for the case of the letters.
    pub fn matches_extension(&self, ext: Option<&str>) -> (b: bool)
        ensures
            b == rule_matches_extension(*self, opt_str_view(ext)),
            match ext {
                Some(x) => is_ascii_chars(x@) && rule_is_ascii(*self) ==> b
                    == extension_listed_ascii(self.extensions.deep_view(), x@),
                None => true,
            },
    {
        match ext {
            None => false,
            Some(x) => {
                let want = to_lowercase(x);
                let mut i: usize = 0;
                while i < self.extensions.len()
                    invariant
                        i <= self.extensions.len(),
                        want@ == unicode_lowercase(x@),
                        is_ascii_chars(x@) ==> want@ == ascii_lowercase(x@),
                        opt_str_view(ext) == Some(x@),
                        forall|k: int|
                            0 <= k < i ==> unicode_lowercase(#[trigger] self.extensions@[k]@)
                                != unicode_lowercase(x@),
                        is_ascii_chars(x@) && rule_is_ascii(*self) ==> forall|k: int|
                            0 <= k < i ==> ascii_lowercase(#[trigger] self.extensions@[k]@)
                                != ascii_lowercase(x@),
                    decreases self.extensions.len() - i,
                {
                    let e = to_lowercase(self.extensions[i].as_str());
                    proof {
                        if rule_is_ascii(*self) {
                            assert(is_ascii_chars(self.extensions@[i as int]@));
                        }
                    }
                    if e == want {
                        assert(self.extensions.deep_view()[i as int] == self.extensions@[i as int]@);
                        proof {
                            if is_ascii_chars(x@) && rule_is_ascii(*self) {
                                assert(ascii_lowercase(self.extensions.deep_view()[i as int])
                                    == ascii_lowercase(x@));
                            }
                        }
                        assert(unicode_lowercase(self.extensions.deep_view()[i as int])
                            == unicode_lowercase(x@));
                        return true;
                    }
                    i = i + 1;
                }
                assert forall|k: int| 0 <= k < self.extensions.deep_view().len() implies
                    #[trigger] unicode_lowercase(self.extensions.deep_view()[k])
                    != unicode_lowercase(x@) by {
                    assert(self.extensions.deep_view()[k] == self.extensions@[k]@);
                }
                proof {
                    if is_ascii_chars(x@) && rule_is_ascii(*self) {
                        assert forall|k: int| 0 <= k < self.extensions.deep_view().len() implies
                            #[trigger] ascii_lowercase(self.extensions.deep_view()[k])
                            != ascii_lowercase(x@) by {
                            assert(self.extensions.deep_view()[k] == self.extensions@[k]@);
                        }
                    }
                }
                false
            },
        }
    }

    /// Check if the file at `file_path` matches this rule, by the extension
    /// that camino finds in the path.
    pub fn matches(&self, file_path: &str) -> (b: bool)
        ensures
            b == rule_matches_extension(*self, path_extension_of(file_path@)),
    {
        let ext = path_extension(file_path);
        self.matches_extension(ext)
    }

    /// Builds one rule with no naming pattern.
    fn build(name: &str, extensions: Vec<&str>, destination: &str, priority: u32) -> (r: Self)
        ensures
            rule_is(r, name@, extensions.deep_view(), destination@, priority),
    {
        CategorizationRule {
            name: name.to_owned(),
            extensions: strings_from(extensions),
            destination: destination.to_owned(),
            naming_pattern: None,
            priority,
        }
    }

    /// Get default rules
    pub fn defaults() -> (r: Vec<Self>)
        ensures
            are_default_rules(r@),
    {
        let mut r: Vec<Self> = Vec::new();
        let exts = vec!["pdf", "doc", "docx", "txt", "rtf"];
        assert(exts.deep_view() =~= seq!["pdf"@, "doc"@, "docx"@, "txt"@, "rtf"@]);
        r.push(Self::build("Documents", exts, "Documents", 10));
        let exts = vec!["jpg", "jpeg", "png", "gif", "bmp", "svg", "webp"];
        assert(exts.deep_view() =~= seq!["jpg"@, "jpeg"@, "png"@, "gif"@, "bmp"@, "svg"@, "webp"@]);
        r.push(Self::build("Images", exts, "Pictures", 10));
        let exts = vec!["mp4", "avi", "mkv", "mov", "wmv", "flv"];
        assert(exts.deep_view() =~= seq!["mp4"@, "avi"@, "mkv"@, "mov"@, "wmv"@, "flv"@]);
        r.push(Self::build("Videos", exts, "Videos", 10));
        let exts = vec!["mp3", "wav", "flac", "aac", "ogg", "wma"];
        assert(exts.deep_view() =~= seq!["mp3"@, "wav"@, "flac"@, "aac"@, "ogg"@, "wma"@]);
        r.push(Self::build("Music", exts, "Music", 10));
        let exts = vec!["zip", "rar", "7z", "tar", "gz", "bz2"];
        assert(exts.deep_view() =~= seq!["zip"@, "rar"@, "7z"@, "tar"@, "gz"@, "bz2"@]);
        r.push(Self::build("Archives", exts, "Archives", 10));
        let exts = vec!["exe", "msi", "dmg", "pkg"];
        assert(exts.deep_view() =~= seq!["exe"@, "msi"@, "dmg"@, "pkg"@]);
        r.push(Self::build("Installers", exts, "Installers", 20));
        let exts = vec!["js", "ts", "py", "rs", "go", "java", "cpp", "c", "h", "cs", "php", "rb", "sh"];
        assert(exts.deep_view() =~= seq!["js"@, "ts"@, "py"@, "rs"@, "go"@, "java"@, "cpp"@, "c"@, "h"@, "cs"@, "php"@, "rb"@, "sh"@]);
        r.push(Self::build("Code", exts, "Code", 10));
        r
    }
}

} // verus!
