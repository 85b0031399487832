//! The pattern table: typical-file rules, special-file rules, extension
//! rules and tag synonyms, compiled once and read by every classification.
use vstd::prelude::*;
use crate::text::{texts, opt_text, opt_texts, contains_text, clone_texts};

verus! {

/// Whether `regex::Regex::new` accepts the pattern.
pub uninterp spec fn regex_compiles(pattern: Seq<char>) -> bool;

/// Whether the regex compiled from `pattern` matches anywhere in `haystack`.
pub uninterp spec fn regex_accepts(pattern: Seq<char>, haystack: Seq<char>) -> bool;

#[verifier::external_type_specification]
#[verifier::external_body]
pub struct ExRegex(regex::Regex);

#[verifier::external_type_specification]
#[verifier::external_body]
pub struct ExRegexError(regex::Error);

/// Relies on `regex::Regex::new`: compiles a pattern with the default
/// builder; whether it fails (a syntax error, or over the size limit)
/// depends on the pattern alone.
#[verifier::external_body]
fn compile_regex(pattern: &str) -> (r: Result<regex::Regex, regex::Error>)
    ensures
        r is Ok <==> regex_compiles(pattern@),
{
    regex::Regex::new(pattern)
}

/// A regular expression together with the pattern it was compiled from.
pub struct CompiledPattern {
    source: String,
    regex: regex::Regex,
}

impl View for CompiledPattern {
    type V = Seq<char>;

    closed spec fn view(&self) -> Seq<char> {
        self.source@
    }
}

/// Relies on `regex::Regex::is_match`: whether the regex matches anywhere in
/// `text`. `CompiledPattern::compile`, the only constructor, builds
/// `p.regex` from `p.source`.
#[verifier::external_body]
fn regex_is_match(p: &CompiledPattern, text: &str) -> (r: bool)
    ensures
        r == regex_accepts(p@, text@),
{
    p.regex.is_match(text)
}

impl CompiledPattern {
    /// Compiles `source`; `None` where the regex engine refuses it.
    pub fn compile(source: &String) -> (r: Option<CompiledPattern>)
        ensures
            r is Some <==> regex_compiles(source@),
            r matches Some(p) ==> p@ == source@,
    {
        match compile_regex(source.as_str()) {
            Ok(regex) => Some(CompiledPattern { source: source.clone(), regex }),
            Err(_) => None,
        }
    }

    /// Whether the pattern matches anywhere in `text`.
    pub fn is_match(&self, text: &str) -> (r: bool)
        ensures
            r == regex_accepts(self@, text@),
    {
        regex_is_match(self, text)
    }
}

/// Whether one of the patterns matches `name`.
pub open spec fn any_accepts(patterns: Seq<Seq<char>>, name: Seq<char>) -> bool {
    exists|i: int| 0 <= i < patterns.len() && regex_accepts(#[trigger] patterns[i], name)
}

/// The tag of the first typical-file rule, from index `i` on, with a pattern
/// that matches `name`.
pub open spec fn typical_match_from(
    rules: Seq<(Seq<char>, Seq<Seq<char>>)>,
    name: Seq<char>,
    i: int,
) -> Option<Seq<char>>
    decreases rules.len() - i,
{
    if i < 0 || i >= rules.len() {
        None
    } else if any_accepts(rules[i].1, name) {
        Some(rules[i].0)
    } else {
        typical_match_from(rules, name, i + 1)
    }
}

/// The tags of the first special-file rule, from index `i` on, whose pattern
/// matches `name`.
pub open spec fn special_match_from(
    rules: Seq<(Seq<Seq<char>>, Seq<char>)>,
    name: Seq<char>,
    i: int,
) -> Option<Seq<Seq<char>>>
    decreases rules.len() - i,
{
    if i < 0 || i >= rules.len() {
        None
    } else if regex_accepts(rules[i].1, name) {
        Some(rules[i].0)
    } else {
        special_match_from(rules, name, i + 1)
    }
}

/// The keys, in table order, of the rules whose values hold `value`.
pub open spec fn keys_holding(rules: Seq<(Seq<char>, Seq<Seq<char>>)>, value: Seq<char>) -> Seq<
    Seq<char>,
>
    decreases rules.len(),
{
    if rules.len() == 0 {
        Seq::empty()
    } else if rules.last().1.contains(value) {
        keys_holding(rules.drop_last(), value).push(rules.last().0)
    } else {
        keys_holding(rules.drop_last(), value)
    }
}

/// The values of the first rule, from index `i` on, whose key is `key`.
pub open spec fn lookup_from(rules: Seq<(Seq<char>, Seq<Seq<char>>)>, key: Seq<char>, i: int) -> Option<
    Seq<Seq<char>>,
>
    decreases rules.len() - i,
{
    if i < 0 || i >= rules.len() {
        None
    } else if rules[i].0 == key {
        Some(rules[i].1)
    } else {
        lookup_from(rules, key, i + 1)
    }
}

/// Each tag replaced by its synonyms where it has an entry, kept as it is
/// where it has none.
pub open spec fn expand_synonyms(rules: Seq<(Seq<char>, Seq<Seq<char>>)>, tags: Seq<Seq<char>>) -> Seq<
    Seq<char>,
>
    decreases tags.len(),
{
    if tags.len() == 0 {
        Seq::empty()
    } else {
        expand_synonyms(rules, tags.drop_last()) + match lookup_from(rules, tags.last(), 0) {
            Some(canonical) => canonical,
            None => seq![tags.last()],
        }
    }
}

/// The first occurrence of each string, in order.
pub open spec fn dedup(s: Seq<Seq<char>>) -> Seq<Seq<char>>
    decreases s.len(),
{
    if s.len() == 0 {
        Seq::empty()
    } else if dedup(s.drop_last()).contains(s.last()) {
        dedup(s.drop_last())
    } else {
        dedup(s.drop_last()).push(s.last())
    }
}

/// Whether no two entries share a key.
pub open spec fn keys_unique<V>(rules: Seq<(Seq<char>, V)>) -> bool {
    forall|i: int, j: int|
        0 <= i < j < rules.len() ==> #[trigger] rules[i].0 != #[trigger] rules[j].0
}

/// The pattern table as plain values.
pub struct PatternsModel {
    /// Tag, and the patterns of files typical of a directory with that tag.
    pub typical: Seq<(Seq<char>, Seq<Seq<char>>)>,
    /// Tags, and the pattern of a file name that carries them.
    pub special: Seq<(Seq<Seq<char>>, Seq<char>)>,
    /// Tag, and the extensions that carry it.
    pub extensions: Seq<(Seq<char>, Seq<Seq<char>>)>,
    /// Alias, and the canonical tags it stands for.
    pub synonyms: Seq<(Seq<char>, Seq<Seq<char>>)>,
}

/// Typical files of a kind of directory, by tag.
pub struct TypicalRule {
    tag: String,
    patterns: Vec<CompiledPattern>,
}

/// A file name pattern and the tags a matching file carries.
pub struct SpecialRule {
    tags: Vec<String>,
    pattern: CompiledPattern,
}

/// A key with its list of values, no value twice.
pub struct KeyedList {
    key: String,
    values: Vec<String>,
}

/// The compiled pattern table. Keys are unique in each keyed table and no
/// list of values holds a value twice, as in the maps and sets it is read
/// from.
pub struct Patterns {
    typical_files: Vec<TypicalRule>,
    filenames: Vec<SpecialRule>,
    extensions: Vec<KeyedList>,
    synonyms: Vec<KeyedList>,
}

spec fn pattern_views(v: Seq<CompiledPattern>) -> Seq<Seq<char>> {
    v.map_values(|p: CompiledPattern| p@)
}

spec fn keyed_views(v: Seq<KeyedList>) -> Seq<(Seq<char>, Seq<Seq<char>>)> {
    v.map_values(|k: KeyedList| (k.key@, texts(k.values@)))
}

impl View for Patterns {
    type V = PatternsModel;

    closed spec fn view(&self) -> PatternsModel {
        PatternsModel {
            typical: self.typical_files@.map_values(
                |r: TypicalRule| (r.tag@, pattern_views(r.patterns@)),
            ),
            special: self.filenames@.map_values(|r: SpecialRule| (texts(r.tags@), r.pattern@)),
            extensions: keyed_views(self.extensions@),
            synonyms: keyed_views(self.synonyms@),
        }
    }
}

impl Patterns {
    #[verifier::type_invariant]
    spec fn well_formed(self) -> bool {
        &&& keys_unique(self@.typical)
        &&& keys_unique(self@.extensions)
        &&& keys_unique(self@.synonyms)
    }
}

/// A special-file entry of the pattern document.
pub struct FilenamePattern {
    pub tags: Vec<String>,
    pub pattern: String,
}

/// The pattern document as read from its file: each table in the order the
/// file gives it.
pub struct PatternDocument {
    /// Tag, and the patterns of files typical of a directory with that tag.
    pub typical_files: Vec<(String, Vec<String>)>,
    /// Tag, and the extensions (without the dot) that carry it.
    pub extensions: Vec<(String, Vec<String>)>,
    /// File name patterns of standalone files, each with its tags.
    pub filenames: Vec<FilenamePattern>,
    /// Alias, and the canonical tags it stands for.
    pub synonyms: Vec<(String, Vec<String>)>,
}

pub open spec fn keyed_model(v: Seq<(String, Vec<String>)>) -> Seq<(Seq<char>, Seq<Seq<char>>)> {
    v.map_values(|e: (String, Vec<String>)| (e.0@, texts(e.1@)))
}

pub open spec fn special_model(v: Seq<FilenamePattern>) -> Seq<(Seq<Seq<char>>, Seq<char>)> {
    v.map_values(|f: FilenamePattern| (texts(f.tags@), f.pattern@))
}

impl View for PatternDocument {
    type V = PatternsModel;

    open spec fn view(&self) -> PatternsModel {
        PatternsModel {
            typical: keyed_model(self.typical_files@),
            special: special_model(self.filenames@),
            extensions: keyed_model(self.extensions@),
            synonyms: keyed_model(self.synonyms@),
        }
    }
}

/// Why a pattern document cannot be compiled.
pub enum PatternError {
    /// The regex engine refuses this pattern.
    InvalidPattern(String),
    /// This key stands twice in one table.
    DuplicateKey(String),
}

/// Whether every pattern of the table compiles.
pub open spec fn all_compile(m: PatternsModel) -> bool {
    &&& forall|i: int, j: int|
        0 <= i < m.typical.len() && 0 <= j < m.typical[i].1.len() ==> regex_compiles(
            #[trigger] m.typical[i].1[j],
        )
    &&& forall|i: int| 0 <= i < m.special.len() ==> regex_compiles(#[trigger] m.special[i].1)
}

/// Whether a pattern document can be compiled into a table.
pub open spec fn document_valid(m: PatternsModel) -> bool {
    &&& all_compile(m)
    &&& keys_unique(m.typical)
    &&& keys_unique(m.extensions)
    &&& keys_unique(m.synonyms)
}

/// Whether `p` is one of the patterns of the table.
pub open spec fn mentions_pattern(m: PatternsModel, p: Seq<char>) -> bool {
    ||| exists|i: int, j: int|
        0 <= i < m.typical.len() && 0 <= j < m.typical[i].1.len() && #[trigger] m.typical[i].1[j]
            == p
    ||| exists|i: int| 0 <= i < m.special.len() && #[trigger] m.special[i].1 == p
}

/// Whether `k` is the key of two entries of `rules`.
pub open spec fn key_repeated<V>(rules: Seq<(Seq<char>, V)>, k: Seq<char>) -> bool {
    exists|i: int, j: int|
        0 <= i < j < rules.len() && #[trigger] rules[i].0 == k && #[trigger] rules[j].0 == k
}

/// Each list of values without repeats.
pub open spec fn dedup_values(rules: Seq<(Seq<char>, Seq<Seq<char>>)>) -> Seq<
    (Seq<char>, Seq<Seq<char>>),
> {
    rules.map_values(|e: (Seq<char>, Seq<Seq<char>>)| (e.0, dedup(e.1)))
}

/// The table compiled from a valid document.
pub open spec fn compiled_table(m: PatternsModel) -> PatternsModel {
    PatternsModel {
        typical: m.typical,
        special: m.special,
        extensions: dedup_values(m.extensions),
        synonyms: dedup_values(m.synonyms),
    }
}

/// The strings of `v` with repeats dropped, first occurrences kept in order.
fn dedup_texts(v: &Vec<String>) -> (r: Vec<String>)
    ensures
        texts(r@) == dedup(texts(v@)),
{
    let mut out: Vec<String> = Vec::new();
    let mut i: usize = 0;
    while i < v.len()
        invariant
            i <= v.len(),
            texts(out@) == dedup(texts(v@).take(i as int)),
        decreases v.len() - i,
    {
        let ghost prefix = texts(v@).take(i + 1);
        assert(prefix.drop_last() =~= texts(v@).take(i as int));
        assert(prefix.last() == v@[i as int]@);
        if !contains_text(&out, &v[i]) {
            let ghost before = out@;
            out.push(v[i].clone());
            assert(texts(out@) =~= texts(before).push(v@[i as int]@));
        }
        i = i + 1;
    }
    assert(texts(v@).take(v.len() as int) =~= texts(v@));
    out
}

/// Compiles each pattern of a list.
fn compile_all(sources: &Vec<String>) -> (r: Result<Vec<CompiledPattern>, String>)
    ensures
        r is Ok <==> forall|j: int| 0 <= j < sources@.len() ==> regex_compiles(
            #[trigger] sources@[j]@,
        ),
        r matches Ok(v) ==> pattern_views(v@) == texts(sources@),
        r matches Err(s) ==> !regex_compiles(s@) && texts(sources@).contains(s@),
{
    let mut out: Vec<CompiledPattern> = Vec::new();
    let mut i: usize = 0;
    while i < sources.len()
        invariant
            i <= sources.len(),
            out@.len() == i,
            forall|j: int| 0 <= j < i ==> regex_compiles(#[trigger] sources@[j]@),
            forall|j: int| 0 <= j < i ==> #[trigger] out@[j]@ == sources@[j]@,
        decreases sources.len() - i,
    {
        match CompiledPattern::compile(&sources[i]) {
            Some(p) => out.push(p),
            None => {
                assert(texts(sources@)[i as int] == sources@[i as int]@);
                return Err(sources[i].clone());
            },
        }
        i = i + 1;
    }
    assert(pattern_views(out@) =~= texts(sources@));
    Ok(out)
}

/// The typical-file rules of a document, compiled.
fn build_typical(v: &Vec<(String, Vec<String>)>) -> (r: Result<Vec<TypicalRule>, PatternError>)
    ensures
        r is Ok <==> (keys_unique(keyed_model(v@)) && forall|i: int, j: int|
            0 <= i < v@.len() && 0 <= j < v@[i].1@.len() ==> regex_compiles(
                #[trigger] v@[i].1@[j]@,
            )),
        r matches Ok(rules) ==> rules@.map_values(
            |r: TypicalRule| (r.tag@, pattern_views(r.patterns@)),
        ) == keyed_model(v@),
        r matches Err(PatternError::InvalidPattern(s)) ==> !regex_compiles(s@) && exists|
            i: int,
            j: int,
        | 0 <= i < v@.len() && 0 <= j < v@[i].1@.len() && #[trigger] v@[i].1@[j]@ == s@,
        r matches Err(PatternError::DuplicateKey(k)) ==> key_repeated(keyed_model(v@), k@),
{
    let mut out: Vec<TypicalRule> = Vec::new();
    let mut keys: Vec<String> = Vec::new();
    let mut i: usize = 0;
    while i < v.len()
        invariant
            i <= v.len(),
            out@.len() == i,
            keys@.len() == i,
            forall|a: int| 0 <= a < i ==> #[trigger] keys@[a]@ == v@[a].0@,
            keys_unique(keyed_model(v@).take(i as int)),
            forall|a: int, j: int|
                0 <= a < i && 0 <= j < v@[a].1@.len() ==> regex_compiles(#[trigger] v@[a].1@[j]@),
            forall|a: int|
                0 <= a < i ==> (#[trigger] out@[a]).tag@ == v@[a].0@ && pattern_views(
                    out@[a].patterns@,
                ) == texts(v@[a].1@),
        decreases v.len() - i,
    {
        if contains_text(&keys, &v[i].0) {
            proof {
                let a = choose|a: int| 0 <= a < texts(keys@).len() && texts(keys@)[a] == v@[i as int].0@;
                assert(keyed_model(v@)[a].0 == v@[i as int].0@);
                assert(keyed_model(v@)[i as int].0 == v@[i as int].0@);
            }
            return Err(PatternError::DuplicateKey(v[i].0.clone()));
        }
        match compile_all(&v[i].1) {
            Ok(patterns) => {
                out.push(TypicalRule { tag: v[i].0.clone(), patterns });
            },
            Err(s) => {
                proof {
                    let j = choose|j: int| 0 <= j < texts(v@[i as int].1@).len() && texts(v@[i as int].1@)[j] == s@;
                    assert(v@[i as int].1@[j]@ == s@);
                }
                return Err(PatternError::InvalidPattern(s));
            },
        }
        let ghost old_keys = keys@;
        keys.push(v[i].0.clone());
        proof {
            assert forall|a: int, b: int| 0 <= a < b < i + 1 implies #[trigger] keyed_model(v@).take(i + 1)[a].0
                != #[trigger] keyed_model(v@).take(i + 1)[b].0 by {
                if b == i {
                    assert(texts(old_keys)[a] == v@[a].0@);
                    assert(keyed_model(v@).take(i + 1)[a].0 == v@[a].0@);
                    assert(keyed_model(v@).take(i + 1)[b].0 == v@[i as int].0@);
                } else {
                    assert(keyed_model(v@).take(i as int)[a].0 != keyed_model(v@).take(i as int)[b].0);
                }
            }
        }
        i = i + 1;
    }
    assert(keyed_model(v@).take(v.len() as int) =~= keyed_model(v@));
    assert(out@.map_values(|r: TypicalRule| (r.tag@, pattern_views(r.patterns@))) =~= keyed_model(v@));
    Ok(out)
}

/// A keyed table of a document, each list of values without repeats.
fn build_keyed(v: &Vec<(String, Vec<String>)>) -> (r: Result<Vec<KeyedList>, String>)
    ensures
        r is Ok <==> keys_unique(keyed_model(v@)),
        r matches Ok(lists) ==> keyed_views(lists@) == dedup_values(keyed_model(v@)),
        r matches Err(k) ==> key_repeated(keyed_model(v@), k@),
{
    let mut out: Vec<KeyedList> = Vec::new();
    let mut keys: Vec<String> = Vec::new();
    let mut i: usize = 0;
    while i < v.len()
        invariant
            i <= v.len(),
            out@.len() == i,
            keys@.len() == i,
            forall|a: int| 0 <= a < i ==> #[trigger] keys@[a]@ == v@[a].0@,
            keys_unique(keyed_model(v@).take(i as int)),
            forall|a: int|
                0 <= a < i ==> (#[trigger] out@[a]).key@ == v@[a].0@ && texts(out@[a].values@)
                    == dedup(texts(v@[a].1@)),
        decreases v.len() - i,
    {
        if contains_text(&keys, &v[i].0) {
            proof {
                let a = choose|a: int| 0 <= a < texts(keys@).len() && texts(keys@)[a] == v@[i as int].0@;
                assert(keyed_model(v@)[a].0 == v@[i as int].0@);
                assert(keyed_model(v@)[i as int].0 == v@[i as int].0@);
            }
            return Err(v[i].0.clone());
        }
        out.push(KeyedList { key: v[i].0.clone(), values: dedup_texts(&v[i].1) });
        let ghost old_keys = keys@;
        keys.push(v[i].0.clone());
        proof {
            assert forall|a: int, b: int| 0 <= a < b < i + 1 implies #[trigger] keyed_model(v@).take(i + 1)[a].0
                != #[trigger] keyed_model(v@).take(i + 1)[b].0 by {
                if b == i {
                    assert(texts(old_keys)[a] == v@[a].0@);
                    assert(keyed_model(v@).take(i + 1)[a].0 == v@[a].0@);
                    assert(keyed_model(v@).take(i + 1)[b].0 == v@[i as int].0@);
                } else {
                    assert(keyed_model(v@).take(i as int)[a].0 != keyed_model(v@).take(i as int)[b].0);
                }
            }
        }
        i = i + 1;
    }
    assert(keyed_model(v@).take(v.len() as int) =~= keyed_model(v@));
    assert(keyed_views(out@) =~= dedup_values(keyed_model(v@)));
    Ok(out)
}

/// The special-file rules of a document, compiled.
fn build_special(v: &Vec<FilenamePattern>) -> (r: Result<Vec<SpecialRule>, String>)
    ensures
        r is Ok <==> forall|i: int| 0 <= i < v@.len() ==> regex_compiles(#[trigger] v@[i].pattern@),
        r matches Ok(rules) ==> rules@.map_values(|r: SpecialRule| (texts(r.tags@), r.pattern@))
            == special_model(v@),
        r matches Err(s) ==> !regex_compiles(s@) && exists|i: int|
            0 <= i < v@.len() && #[trigger] v@[i].pattern@ == s@,
{
    let mut out: Vec<SpecialRule> = Vec::new();
    let mut i: usize = 0;
    while i < v.len()
        invariant
            i <= v.len(),
            out@.len() == i,
            forall|a: int| 0 <= a < i ==> regex_compiles(#[trigger] v@[a].pattern@),
            forall|a: int|
                0 <= a < i ==> texts((#[trigger] out@[a]).tags@) == texts(v@[a].tags@)
                    && out@[a].pattern@ == v@[a].pattern@,
        decreases v.len() - i,
    {
        match CompiledPattern::compile(&v[i].pattern) {
            Some(pattern) => {
                out.push(SpecialRule { tags: clone_texts(&v[i].tags), pattern });
            },
            None => {
                return Err(v[i].pattern.clone());
            },
        }
        i = i + 1;
    }
    assert(out@.map_values(|r: SpecialRule| (texts(r.tags@), r.pattern@)) =~= special_model(v@));
    Ok(out)
}

/// Compiles a pattern document into the table that classification reads.
/// Fails on a pattern the regex engine refuses or on a key that stands
/// twice in one table; each list of extensions or synonyms keeps the first
/// occurrence of each value.
pub fn load_patterns(document: &PatternDocument) -> (r: Result<Patterns, PatternError>)
    ensures
        r is Ok <==> document_valid(document@),
        r matches Ok(p) ==> p@ == compiled_table(document@),
        r matches Err(PatternError::InvalidPattern(s)) ==> !regex_compiles(s@) && mentions_pattern(
            document@,
            s@,
        ),
        r matches Err(PatternError::DuplicateKey(k)) ==> key_repeated(document@.typical, k@)
            || key_repeated(document@.extensions, k@) || key_repeated(document@.synonyms, k@),
{
    let ghost m = document@;
    let typical_files = match build_typical(&document.typical_files) {
        Ok(rules) => rules,
        Err(e) => {
            proof {
                assert forall|i: int, j: int|
                    0 <= i < m.typical.len() && 0 <= j < m.typical[i].1.len() implies #[trigger] m.typical[i].1[j]
                    == document.typical_files@[i].1@[j]@ by {}
                if let PatternError::InvalidPattern(s) = &e {
                    let (i, j) = choose|i: int, j: int|
                        0 <= i < document.typical_files@.len() && 0 <= j
                            < document.typical_files@[i].1@.len()
                            && #[trigger] document.typical_files@[i].1@[j]@ == s@;
                    assert(m.typical[i].1[j] == s@);
                }
            }
            return Err(e);
        },
    };
    assert forall|i: int, j: int|
        0 <= i < m.typical.len() && 0 <= j < m.typical[i].1.len() implies regex_compiles(
        #[trigger] m.typical[i].1[j],
    ) by {
        assert(m.typical[i].1[j] == document.typical_files@[i].1@[j]@);
    }
    let filenames = match build_special(&document.filenames) {
        Ok(rules) => rules,
        Err(s) => {
            proof {
                let i = choose|i: int|
                    0 <= i < document.filenames@.len() && #[trigger] document.filenames@[i].pattern@
                        == s@;
                assert(m.special[i].1 == s@);
            }
            return Err(PatternError::InvalidPattern(s));
        },
    };
    assert forall|i: int| 0 <= i < m.special.len() implies regex_compiles(#[trigger] m.special[i].1) by {
        assert(m.special[i].1 == document.filenames@[i].pattern@);
    }
    let extensions = match build_keyed(&document.extensions) {
        Ok(lists) => lists,
        Err(k) => {
            return Err(PatternError::DuplicateKey(k));
        },
    };
    let synonyms = match build_keyed(&document.synonyms) {
        Ok(lists) => lists,
        Err(k) => {
            return Err(PatternError::DuplicateKey(k));
        },
    };
    let p = Patterns { typical_files, filenames, extensions, synonyms };
    assert(p@ == compiled_table(m));
    Ok(p)
}

/// Whether one of the patterns matches `name`.
fn any_match(patterns: &Vec<CompiledPattern>, name: &str) -> (r: bool)
    ensures
        r == any_accepts(pattern_views(patterns@), name@),
{
    let mut i: usize = 0;
    while i < patterns.len()
        invariant
            i <= patterns.len(),
            forall|j: int| 0 <= j < i ==> !regex_accepts(#[trigger] pattern_views(patterns@)[j], name@),
        decreases patterns.len() - i,
    {
        if patterns[i].is_match(name) {
            assert(regex_accepts(pattern_views(patterns@)[i as int], name@));
            return true;
        }
        i = i + 1;
    }
    false
}

impl Patterns {
    /// The tag of the first typical-file rule with a pattern that matches
    /// the file name `name`.
    pub fn match_typical(&self, name: &str) -> (r: Option<String>)
        ensures
            opt_text(r) == typical_match_from(self@.typical, name@, 0),
    {
        let ghost rules = self@.typical;
        let mut i: usize = 0;
        while i < self.typical_files.len()
            invariant
                i <= self.typical_files@.len(),
                rules == self@.typical,
                rules.len() == self.typical_files@.len(),
                typical_match_from(rules, name@, 0) == typical_match_from(rules, name@, i as int),
            decreases self.typical_files.len() - i,
        {
            let rule = &self.typical_files[i];
            assert(rules[i as int] == (rule.tag@, pattern_views(rule.patterns@)));
            if any_match(&rule.patterns, name) {
                return Some(rule.tag.clone());
            }
            i = i + 1;
        }
        None
    }

    /// The tags of the first special-file rule whose pattern matches the
    /// file name `name`.
    pub fn match_special(&self, name: &str) -> (r: Option<Vec<String>>)
        ensures
            opt_texts(r) == special_match_from(self@.special, name@, 0),
    {
        let ghost rules = self@.special;
        let mut i: usize = 0;
        while i < self.filenames.len()
            invariant
                i <= self.filenames@.len(),
                rules == self@.special,
                rules.len() == self.filenames@.len(),
                special_match_from(rules, name@, 0) == special_match_from(rules, name@, i as int),
            decreases self.filenames.len() - i,
        {
            let rule = &self.filenames[i];
            assert(rules[i as int] == (texts(rule.tags@), rule.pattern@));
            if rule.pattern.is_match(name) {
                return Some(clone_texts(&rule.tags));
            }
            i = i + 1;
        }
        None
    }

    /// The tags, in table order, whose extension lists hold `ext`.
    pub fn tags_for_extension(&self, ext: &String) -> (r: Vec<String>)
        ensures
            texts(r@) == keys_holding(self@.extensions, ext@),
    {
        let ghost rules = self@.extensions;
        let mut out: Vec<String> = Vec::new();
        let mut i: usize = 0;
        while i < self.extensions.len()
            invariant
                i <= self.extensions@.len(),
                rules == self@.extensions,
                rules.len() == self.extensions@.len(),
                texts(out@) == keys_holding(rules.take(i as int), ext@),
            decreases self.extensions.len() - i,
        {
            let entry = &self.extensions[i];
            assert(rules[i as int] == (entry.key@, texts(entry.values@)));
            assert(rules.take(i + 1).drop_last() =~= rules.take(i as int));
            if contains_text(&entry.values, ext) {
                let ghost before = out@;
                out.push(entry.key.clone());
                assert(texts(out@) =~= texts(before).push(entry.key@));
            }
            i = i + 1;
        }
        assert(rules.take(rules.len() as int) =~= rules);
        out
    }

    /// The canonical tags an alias stands for, if it has an entry.
    fn synonyms_of(&self, tag: &String) -> (r: Option<&Vec<String>>)
        ensures
            match r {
                Some(v) => lookup_from(self@.synonyms, tag@, 0) == Some(texts(v@)),
                None => lookup_from(self@.synonyms, tag@, 0) is None,
            },
    {
        let ghost rules = self@.synonyms;
        let mut i: usize = 0;
        while i < self.synonyms.len()
            invariant
                i <= self.synonyms@.len(),
                rules == self@.synonyms,
                rules.len() == self.synonyms@.len(),
                lookup_from(rules, tag@, 0) == lookup_from(rules, tag@, i as int),
            decreases self.synonyms.len() - i,
        {
            let entry = &self.synonyms[i];
            assert(rules[i as int] == (entry.key@, texts(entry.values@)));
            if entry.key == *tag {
                return Some(&entry.values);
            }
            i = i + 1;
        }
        None
    }

    /// A tag filter with each alias replaced by the canonical tags it stands
    /// for; a tag without an entry is kept as it is.
    pub fn expand_tags(&self, tags: &Vec<String>) -> (r: Vec<String>)
        ensures
            texts(r@) == expand_synonyms(self@.synonyms, texts(tags@)),
    {
        let mut out: Vec<String> = Vec::new();
        let mut i: usize = 0;
        while i < tags.len()
            invariant
                i <= tags@.len(),
                texts(out@) == expand_synonyms(self@.synonyms, texts(tags@).take(i as int)),
            decreases tags.len() - i,
        {
            let ghost prefix = texts(tags@).take(i + 1);
            assert(prefix.drop_last() =~= texts(tags@).take(i as int));
            assert(prefix.last() == tags@[i as int]@);
            let ghost before = out@;
            match self.synonyms_of(&tags[i]) {
                Some(canonical) => {
                    let mut k: usize = 0;
                    while k < canonical.len()
                        invariant
                            k <= canonical@.len(),
                            texts(out@) == texts(before) + texts(canonical@).take(k as int),
                        decreases canonical.len() - k,
                    {
                        let c = canonical[k].clone();
                        let ghost mid = out@;
                        out.push(c);
                        assert(texts(out@) =~= texts(mid).push(c@));
                        assert(texts(canonical@).take(k + 1) =~= texts(canonical@).take(k as int).push(
                            canonical@[k as int]@,
                        ));
                        k = k + 1;
                    }
                    assert(texts(canonical@).take(canonical@.len() as int) =~= texts(canonical@));
                },
                None => {
                    out.push(tags[i].clone());
                    assert(texts(out@) =~= texts(before) + seq![tags@[i as int]@]);
                },
            }
            i = i + 1;
        }
        assert(texts(tags@).take(tags@.len() as int) =~= texts(tags@));
        out
    }
}

} // verus!
