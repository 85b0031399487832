//! The classifier: the tags of an entry from its extension, or the word
//! that a directory without such tags has to be walked.
use vstd::prelude::*;
use crate::context::SimpleContext;
use crate::datatype::FileMeta;
use crate::paths::{extension, path_extension};
use crate::patterns::{keys_holding, Patterns, PatternsModel};
use crate::text::{ascii_lowercase, contains_text, opt_texts, texts, to_ascii_lowercase};

verus! {

/// The tag of a file that no extension rule tags.
pub open spec fn misc_tag() -> Seq<char> {
    seq!['m', 'i', 's', 'c']
}

/// The tags of an entry with extension `ext`: every tag whose extension
/// list holds it, in table order, or the misc tag where there is none.
pub open spec fn entry_tags(m: PatternsModel, ext: Seq<char>) -> Seq<Seq<char>> {
    if keys_holding(m.extensions, ext).len() == 0 {
        seq![misc_tag()]
    } else {
        keys_holding(m.extensions, ext)
    }
}

/// Whether an entry with these tags goes on to dispatch under `filter`.
/// Only the first tag is compared with the filter; an absent or empty
/// filter lets every entry through.
pub open spec fn passes_filter(tags: Seq<Seq<char>>, filter: Option<Seq<Seq<char>>>) -> bool {
    match filter {
        None => true,
        Some(f) => f.len() == 0 || f.contains(tags[0]),
    }
}

/// What classification makes of an entry.
pub enum FileOutcome {
    Tagged(Seq<Seq<char>>),
    Filtered(Seq<Seq<char>>),
    DirectoryNoTag,
}

/// The classification of an entry with extension `ext` (already lower-cased).
pub open spec fn classification(
    m: PatternsModel,
    ext: Seq<char>,
    is_dir: bool,
    filter: Option<Seq<Seq<char>>>,
) -> FileOutcome {
    if keys_holding(m.extensions, ext).len() == 0 && is_dir {
        FileOutcome::DirectoryNoTag
    } else if passes_filter(entry_tags(m, ext), filter) {
        FileOutcome::Tagged(entry_tags(m, ext))
    } else {
        FileOutcome::Filtered(entry_tags(m, ext))
    }
}

/// The result of classifying an entry.
pub enum FileResult {
    /// Dispatch the entry with these tags.
    Tagged(Vec<String>),
    /// The entry has these tags, and the filter holds it back.
    Filtered(Vec<String>),
    /// A directory that no extension rule tags: walk it.
    DirectoryNoTag,
}

impl View for FileResult {
    type V = FileOutcome;

    open spec fn view(&self) -> FileOutcome {
        match self {
            FileResult::Tagged(t) => FileOutcome::Tagged(texts(t@)),
            FileResult::Filtered(t) => FileOutcome::Filtered(texts(t@)),
            FileResult::DirectoryNoTag => FileOutcome::DirectoryNoTag,
        }
    }
}

/// The classifier.
pub struct File;

impl File {
    /// Classifies an entry whose extension, lower-cased, is `ext`.
    pub fn classify_extension(
        &self,
        patterns: &Patterns,
        ext: &String,
        is_dir: bool,
        filter: &Option<Vec<String>>,
    ) -> (r: FileResult)
        ensures
            r@ == classification(patterns@, ext@, is_dir, opt_texts(*filter)),
    {
        let mut tags = patterns.tags_for_extension(ext);
        if tags.len() == 0 && is_dir {
            return FileResult::DirectoryNoTag;
        }
        if tags.len() == 0 {
            tags.push(String::from_str("misc"));
            proof {
                reveal_strlit("misc");
                assert("misc"@ =~= misc_tag());
                assert(texts(tags@) =~= seq![misc_tag()]);
            }
        }
        let pass = match filter {
            None => true,
            Some(f) => f.len() == 0 || contains_text(f, &tags[0]),
        };
        proof {
            if let Some(f) = filter {
                assert(texts(tags@)[0] == tags@[0]@);
                assert(f@.len() == texts(f@).len());
            }
        }
        if pass {
            FileResult::Tagged(tags)
        } else {
            FileResult::Filtered(tags)
        }
    }

    /// Classifies the entry at `file_meta.path`, whose `tags` are the tag
    /// filter. Extensions are compared in ASCII lower case.
    pub fn process(&self, context: &SimpleContext, file_meta: &FileMeta, is_dir: bool) -> (r:
        FileResult)
        ensures
            r@ == classification(
                context.spec_patterns()@,
                ascii_lowercase(path_extension(file_meta.path@)),
                is_dir,
                opt_texts(file_meta.tags),
            ),
    {
        let ext = to_ascii_lowercase(extension(file_meta.path.as_str()).as_str());
        self.classify_extension(context.patterns(), &ext, is_dir, &file_meta.tags)
    }
}

/// Extension tagging is a union, not a first match: every tag whose
/// extension list holds `ext` is among the entry's tags, and each of the
/// entry's tags is such a tag, unless none is and the entry gets the misc
/// tag.
pub proof fn extension_tags_are_union(m: PatternsModel, ext: Seq<char>)
    ensures
        forall|i: int|
            0 <= i < m.extensions.len() && (#[trigger] m.extensions[i]).1.contains(ext)
                ==> entry_tags(m, ext).contains(m.extensions[i].0),
        keys_holding(m.extensions, ext).len() > 0 ==> forall|t: Seq<char>|
            #[trigger] entry_tags(m, ext).contains(t) ==> exists|i: int|
                0 <= i < m.extensions.len() && m.extensions[i].1.contains(ext)
                    && #[trigger] m.extensions[i].0 == t,
        keys_holding(m.extensions, ext).len() == 0 ==> entry_tags(m, ext) == seq![misc_tag()],
{
    lemma_keys_holding(m.extensions, ext);
}

/// `keys_holding` holds exactly the keys of the rules that hold `value`.
proof fn lemma_keys_holding(rules: Seq<(Seq<char>, Seq<Seq<char>>)>, value: Seq<char>)
    ensures
        forall|i: int|
            0 <= i < rules.len() && (#[trigger] rules[i]).1.contains(value) ==> keys_holding(
                rules,
                value,
            ).contains(rules[i].0),
        forall|t: Seq<char>|
            #[trigger] keys_holding(rules, value).contains(t) ==> exists|i: int|
                0 <= i < rules.len() && rules[i].1.contains(value) && #[trigger] rules[i].0 == t,
    decreases rules.len(),
{
    if rules.len() > 0 {
        let prev = rules.drop_last();
        lemma_keys_holding(prev, value);
        let ks = keys_holding(rules, value);
        assert forall|i: int|
            0 <= i < rules.len() && (#[trigger] rules[i]).1.contains(value) implies ks.contains(
            rules[i].0,
        ) by {
            if i < rules.len() - 1 {
                assert(prev[i] == rules[i]);
                let j = choose|j: int| 0 <= j < keys_holding(prev, value).len() && keys_holding(prev, value)[j] == rules[i].0;
                if rules.last().1.contains(value) {
                    assert(ks[j] == rules[i].0);
                } else {
                    assert(ks[j] == rules[i].0);
                }
            } else {
                assert(ks[ks.len() - 1] == rules[i].0);
            }
        }
        assert forall|t: Seq<char>| #[trigger] ks.contains(t) implies exists|i: int|
            0 <= i < rules.len() && rules[i].1.contains(value) && #[trigger] rules[i].0 == t by {
            let j = choose|j: int| 0 <= j < ks.len() && ks[j] == t;
            if rules.last().1.contains(value) && j == ks.len() - 1 {
                assert(rules[rules.len() - 1].0 == t);
            } else {
                assert(j < keys_holding(prev, value).len());
                assert(keys_holding(prev, value)[j] == t);
                assert(keys_holding(prev, value).contains(t));
                let i = choose|i: int| 0 <= i < prev.len() && prev[i].1.contains(value) && #[trigger] prev[i].0 == t;
                assert(rules[i] == prev[i]);
            }
        }
    }
}

} // verus!
