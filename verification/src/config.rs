//! Validated configuration documents. A document is modelled as a
//! plain tree of scalars, lists and key-value entries; the host parses
//! the on-disk text into this shape. A document is accepted when its
//! structure — everything but the scalar values — matches a template's
//! structure exactly.

use vstd::prelude::*;

verus! {

/// The mathematical shape of a configuration document.
pub ghost enum DocValue {
    Null,
    Bool(bool),
    Int(i64),
    UInt(u64),
    /// A non-integral number, carried as its IEEE-754 bit pattern; the
    /// validation never reads it.
    Float(u64),
    Text(Seq<char>),
    List(Seq<DocValue>),
    Mapping(Seq<(DocValue, DocValue)>),
}

/// A configuration document as the engine holds it.
#[derive(Debug)]
pub enum ConfigValue {
    Null,
    Bool(bool),
    Int(i64),
    UInt(u64),
    /// A non-integral number, carried as its IEEE-754 bit pattern.
    Float(u64),
    Text(String),
    Sequence(Vec<ConfigValue>),
    Mapping(Vec<(ConfigValue, ConfigValue)>),
}

/// The mathematical document a value stands for.
pub open spec fn doc_of(value: ConfigValue) -> DocValue
    decreases value,
{
    match value {
        ConfigValue::Null => DocValue::Null,
        ConfigValue::Bool(b) => DocValue::Bool(b),
        ConfigValue::Int(n) => DocValue::Int(n),
        ConfigValue::UInt(n) => DocValue::UInt(n),
        ConfigValue::Float(bits) => DocValue::Float(bits),
        ConfigValue::Text(s) => DocValue::Text(s@),
        ConfigValue::Sequence(items) => DocValue::List(docs_of(items@)),
        ConfigValue::Mapping(entries) => DocValue::Mapping(doc_entries_of(entries@)),
    }
}

/// The documents a sequence of values stands for, element-wise.
pub open spec fn docs_of(items: Seq<ConfigValue>) -> Seq<DocValue>
    decreases items,
{
    if items.len() == 0 {
        Seq::empty()
    } else {
        docs_of(items.drop_last()).push(doc_of(items.last()))
    }
}

/// The document entries a sequence of key-value pairs stands for.
pub open spec fn doc_entries_of(entries: Seq<(ConfigValue, ConfigValue)>) -> Seq<
    (DocValue, DocValue),
>
    decreases entries,
{
    if entries.len() == 0 {
        Seq::empty()
    } else {
        doc_entries_of(entries.drop_last()).push(
            (doc_of(entries.last().0), doc_of(entries.last().1)),
        )
    }
}

impl View for ConfigValue {
    type V = DocValue;

    open spec fn view(&self) -> DocValue {
        doc_of(*self)
    }
}

/// Element-wise reading of `docs_of`.
pub proof fn lemma_docs_of(items: Seq<ConfigValue>)
    ensures
        docs_of(items).len() == items.len(),
        forall|i: int| 0 <= i < items.len() ==> #[trigger] docs_of(items)[i] == doc_of(items[i]),
    decreases items,
{
    if items.len() > 0 {
        lemma_docs_of(items.drop_last());
        assert forall|i: int| 0 <= i < items.len() implies #[trigger] docs_of(items)[i]
            == doc_of(items[i]) by {
            if i < items.len() - 1 {
                assert(docs_of(items)[i] == docs_of(items.drop_last())[i]);
                assert(items.drop_last()[i] == items[i]);
            } else {
                assert(docs_of(items)[i] == doc_of(items.last()));
            }
        }
    }
}

/// Element-wise reading of `doc_entries_of`.
pub proof fn lemma_doc_entries_of(entries: Seq<(ConfigValue, ConfigValue)>)
    ensures
        doc_entries_of(entries).len() == entries.len(),
        forall|i: int| 0 <= i < entries.len() ==> #[trigger] doc_entries_of(entries)[i] == (
            doc_of(entries[i].0),
            doc_of(entries[i].1),
        ),
    decreases entries,
{
    if entries.len() > 0 {
        lemma_doc_entries_of(entries.drop_last());
        assert forall|i: int| 0 <= i < entries.len() implies #[trigger] doc_entries_of(entries)[i]
            == (doc_of(entries[i].0), doc_of(entries[i].1)) by {
            if i < entries.len() - 1 {
                assert(doc_entries_of(entries)[i] == doc_entries_of(entries.drop_last())[i]);
                assert(entries.drop_last()[i] == entries[i]);
            } else {
                assert(doc_entries_of(entries)[i] == (
                    doc_of(entries.last().0),
                    doc_of(entries.last().1),
                ));
            }
        }
    }
}

/// A document's shape with every scalar replaced by a canonical one:
/// booleans by false, numbers of every kind by the integer zero, text
/// by the empty text. Lists normalize element-wise; mapping entries
/// keep their keys as they are and normalize only the values.
pub open spec fn spec_normalize(v: DocValue) -> DocValue
    decreases v,
{
    match v {
        DocValue::Null => DocValue::Null,
        DocValue::Bool(_) => DocValue::Bool(false),
        DocValue::Int(_) => DocValue::Int(0),
        DocValue::UInt(_) => DocValue::Int(0),
        DocValue::Float(_) => DocValue::Int(0),
        DocValue::Text(_) => DocValue::Text(Seq::empty()),
        DocValue::List(items) => DocValue::List(spec_normalize_seq(items)),
        DocValue::Mapping(entries) => DocValue::Mapping(spec_normalize_entries(entries)),
    }
}

/// Element-wise normalization of a list.
pub open spec fn spec_normalize_seq(items: Seq<DocValue>) -> Seq<DocValue>
    decreases items,
{
    if items.len() == 0 {
        Seq::empty()
    } else {
        spec_normalize_seq(items.drop_last()).push(spec_normalize(items.last()))
    }
}

/// Normalization of mapping entries: keys stay, values normalize.
pub open spec fn spec_normalize_entries(entries: Seq<(DocValue, DocValue)>) -> Seq<
    (DocValue, DocValue),
>
    decreases entries,
{
    if entries.len() == 0 {
        Seq::empty()
    } else {
        spec_normalize_entries(entries.drop_last()).push(
            (entries.last().0, spec_normalize(entries.last().1)),
        )
    }
}

/// Element-wise reading of `spec_normalize_seq`.
pub proof fn lemma_normalize_seq(items: Seq<DocValue>)
    ensures
        spec_normalize_seq(items).len() == items.len(),
        forall|i: int| 0 <= i < items.len() ==> #[trigger] spec_normalize_seq(items)[i]
            == spec_normalize(items[i]),
    decreases items,
{
    if items.len() > 0 {
        lemma_normalize_seq(items.drop_last());
        assert forall|i: int| 0 <= i < items.len() implies #[trigger] spec_normalize_seq(items)[i]
            == spec_normalize(items[i]) by {
            if i < items.len() - 1 {
                assert(spec_normalize_seq(items)[i] == spec_normalize_seq(items.drop_last())[i]);
                assert(items.drop_last()[i] == items[i]);
            } else {
                assert(spec_normalize_seq(items)[i] == spec_normalize(items.last()));
            }
        }
    }
}

/// Element-wise reading of `spec_normalize_entries`.
pub proof fn lemma_normalize_entries(entries: Seq<(DocValue, DocValue)>)
    ensures
        spec_normalize_entries(entries).len() == entries.len(),
        forall|i: int| 0 <= i < entries.len() ==> #[trigger] spec_normalize_entries(entries)[i]
            == (entries[i].0, spec_normalize(entries[i].1)),
    decreases entries,
{
    if entries.len() > 0 {
        lemma_normalize_entries(entries.drop_last());
        assert forall|i: int| 0 <= i < entries.len() implies #[trigger] spec_normalize_entries(
            entries,
        )[i] == (entries[i].0, spec_normalize(entries[i].1)) by {
            if i < entries.len() - 1 {
                assert(spec_normalize_entries(entries)[i] == spec_normalize_entries(
                    entries.drop_last(),
                )[i]);
                assert(entries.drop_last()[i] == entries[i]);
            } else {
                assert(spec_normalize_entries(entries)[i] == (
                    entries.last().0,
                    spec_normalize(entries.last().1),
                ));
            }
        }
    }
}

impl ConfigValue {
    /// A structurally identical copy of the value.
    #[verifier::loop_isolation(false)]
    pub fn deep_copy(&self) -> (copy: ConfigValue)
        ensures
            doc_of(copy) == doc_of(*self),
        decreases *self,
    {
        match self {
            ConfigValue::Null => ConfigValue::Null,
            ConfigValue::Bool(b) => ConfigValue::Bool(*b),
            ConfigValue::Int(n) => ConfigValue::Int(*n),
            ConfigValue::UInt(n) => ConfigValue::UInt(*n),
            ConfigValue::Float(bits) => ConfigValue::Float(*bits),
            ConfigValue::Text(s) => ConfigValue::Text(s.clone()),
            ConfigValue::Sequence(items) => {
                let n = items.len();
                let mut out: Vec<ConfigValue> = Vec::new();
                for i in 0..n
                    invariant
                        n == items@.len(),
                        out@.len() == i,
                        forall|j: int| 0 <= j < i ==> doc_of(#[trigger] out@[j]) == doc_of(
                            items@[j],
                        ),
                {
                    proof {
                        assert(decreases_to!(*self => items@[i as int])) by {
                            assert((*self)->Sequence_0 == *items);
                            assert(decreases_to!(*self => (*self)->Sequence_0));
                            assert(decreases_to!(*items => items@));
                            assert(decreases_to!(items@ => items@[i as int]));
                        }
                    }
                    out.push(items[i].deep_copy());
                }
                proof {
                    lemma_docs_of(items@);
                    lemma_docs_of(out@);
                    assert(docs_of(out@) =~= docs_of(items@));
                }
                ConfigValue::Sequence(out)
            },
            ConfigValue::Mapping(entries) => {
                let n = entries.len();
                let mut out: Vec<(ConfigValue, ConfigValue)> = Vec::new();
                for i in 0..n
                    invariant
                        n == entries@.len(),
                        out@.len() == i,
                        forall|j: int| 0 <= j < i ==> doc_of((#[trigger] out@[j]).0) == doc_of(
                            entries@[j].0,
                        ) && doc_of(out@[j].1) == doc_of(entries@[j].1),
                {
                    proof {
                        assert((*self)->Mapping_0 == *entries);
                        assert(decreases_to!(*self => (*self)->Mapping_0));
                        assert(decreases_to!(*entries => entries@));
                        assert(decreases_to!(entries@ => entries@[i as int]));
                        assert(decreases_to!(entries@[i as int] => entries@[i as int].0));
                        assert(decreases_to!(entries@[i as int] => entries@[i as int].1));
                        assert(decreases_to!(*self => entries@[i as int].0));
                        assert(decreases_to!(*self => entries@[i as int].1));
                    }
                    let key = entries[i].0.deep_copy();
                    let value = entries[i].1.deep_copy();
                    out.push((key, value));
                }
                proof {
                    lemma_doc_entries_of(entries@);
                    lemma_doc_entries_of(out@);
                    assert(doc_entries_of(out@) =~= doc_entries_of(entries@));
                }
                ConfigValue::Mapping(out)
            },
        }
    }

    /// Whether two values stand for the same document.
    #[verifier::loop_isolation(false)]
    pub fn doc_eq(&self, other: &ConfigValue) -> (same: bool)
        ensures
            same == (doc_of(*self) == doc_of(*other)),
        decreases *self,
    {
        match self {
            ConfigValue::Null => match other {
                ConfigValue::Null => true,
                _ => {
                    assert(doc_of(*self) != doc_of(*other));
                    false
                },
            },
            ConfigValue::Bool(a) => match other {
                ConfigValue::Bool(b) => *a == *b,
                _ => {
                    assert(doc_of(*self) != doc_of(*other));
                    false
                },
            },
            ConfigValue::Int(a) => match other {
                ConfigValue::Int(b) => *a == *b,
                _ => {
                    assert(doc_of(*self) != doc_of(*other));
                    false
                },
            },
            ConfigValue::UInt(a) => match other {
                ConfigValue::UInt(b) => *a == *b,
                _ => {
                    assert(doc_of(*self) != doc_of(*other));
                    false
                },
            },
            ConfigValue::Float(a) => match other {
                ConfigValue::Float(b) => *a == *b,
                _ => {
                    assert(doc_of(*self) != doc_of(*other));
                    false
                },
            },
            ConfigValue::Text(a) => match other {
                ConfigValue::Text(b) => a.eq(b),
                _ => {
                    assert(doc_of(*self) != doc_of(*other));
                    false
                },
            },
            ConfigValue::Sequence(a) => match other {
                ConfigValue::Sequence(b) => {
                    proof {
                        lemma_docs_of(a@);
                        lemma_docs_of(b@);
                    }
                    if a.len() != b.len() {
                        assert(docs_of(a@).len() != docs_of(b@).len());
                        return false;
                    }
                    let n = a.len();
                    for i in 0..n
                        invariant
                            n == a@.len() == b@.len(),
                            forall|j: int| 0 <= j < i ==> doc_of(#[trigger] a@[j]) == doc_of(
                                b@[j],
                            ),
                    {
                        proof {
                            assert(decreases_to!(*self => a@[i as int])) by {
                                assert((*self)->Sequence_0 == *a);
                                assert(decreases_to!(*self => (*self)->Sequence_0));
                                assert(decreases_to!(*a => a@));
                                assert(decreases_to!(a@ => a@[i as int]));
                            }
                        }
                        if !a[i].doc_eq(&b[i]) {
                            proof {
                                lemma_docs_of(a@);
                                lemma_docs_of(b@);
                                assert(docs_of(a@)[i as int] != docs_of(b@)[i as int]);
                            }
                            return false;
                        }
                    }
                    proof {
                        lemma_docs_of(a@);
                        lemma_docs_of(b@);
                        assert(docs_of(a@) =~= docs_of(b@));
                    }
                    true
                },
                _ => {
                    assert(doc_of(*self) != doc_of(*other));
                    false
                },
            },
            ConfigValue::Mapping(a) => match other {
                ConfigValue::Mapping(b) => {
                    proof {
                        lemma_doc_entries_of(a@);
                        lemma_doc_entries_of(b@);
                    }
                    if a.len() != b.len() {
                        assert(doc_entries_of(a@).len() != doc_entries_of(b@).len());
                        return false;
                    }
                    let n = a.len();
                    for i in 0..n
                        invariant
                            n == a@.len() == b@.len(),
                            forall|j: int| 0 <= j < i ==> doc_of((#[trigger] a@[j]).0) == doc_of(
                                b@[j].0,
                            ) && doc_of(a@[j].1) == doc_of(b@[j].1),
                    {
                        proof {
                            assert((*self)->Mapping_0 == *a);
                            assert(decreases_to!(*self => (*self)->Mapping_0));
                            assert(decreases_to!(*a => a@));
                            assert(decreases_to!(a@ => a@[i as int]));
                            assert(decreases_to!(a@[i as int] => a@[i as int].0));
                            assert(decreases_to!(a@[i as int] => a@[i as int].1));
                            assert(decreases_to!(*self => a@[i as int].0));
                            assert(decreases_to!(*self => a@[i as int].1));
                        }
                        let keys_equal = a[i].0.doc_eq(&b[i].0);
                        let values_equal = a[i].1.doc_eq(&b[i].1);
                        if !keys_equal || !values_equal {
                            proof {
                                lemma_doc_entries_of(a@);
                                lemma_doc_entries_of(b@);
                                assert(doc_entries_of(a@)[i as int] != doc_entries_of(
                                    b@,
                                )[i as int]);
                            }
                            return false;
                        }
                    }
                    proof {
                        lemma_doc_entries_of(a@);
                        lemma_doc_entries_of(b@);
                        assert(doc_entries_of(a@) =~= doc_entries_of(b@));
                    }
                    true
                },
                _ => {
                    assert(doc_of(*self) != doc_of(*other));
                    false
                },
            },
        }
    }
}

/// Replaces every scalar of the value by its canonical stand-in,
/// keeping the document's structure and its mapping keys; two
/// documents have the same structure exactly when their normalized
/// forms are equal.
#[verifier::loop_isolation(false)]
pub fn normalize_value(value: &ConfigValue) -> (normalized: ConfigValue)
    ensures
        doc_of(normalized) == spec_normalize(doc_of(*value)),
    decreases *value,
{
    match value {
        ConfigValue::Null => ConfigValue::Null,
        ConfigValue::Bool(_) => ConfigValue::Bool(false),
        ConfigValue::Int(_) => ConfigValue::Int(0),
        ConfigValue::UInt(_) => ConfigValue::Int(0),
        ConfigValue::Float(_) => ConfigValue::Int(0),
        ConfigValue::Text(_) => ConfigValue::Text(String::new()),
        ConfigValue::Sequence(items) => {
            let n = items.len();
            let mut out: Vec<ConfigValue> = Vec::new();
            for i in 0..n
                invariant
                    n == items@.len(),
                    out@.len() == i,
                    forall|j: int| 0 <= j < i ==> doc_of(#[trigger] out@[j]) == spec_normalize(
                        doc_of(items@[j]),
                    ),
            {
                proof {
                    assert(decreases_to!(*value => items@[i as int])) by {
                        assert((*value)->Sequence_0 == *items);
                        assert(decreases_to!(*value => (*value)->Sequence_0));
                        assert(decreases_to!(*items => items@));
                        assert(decreases_to!(items@ => items@[i as int]));
                    }
                }
                out.push(normalize_value(&items[i]));
            }
            proof {
                lemma_docs_of(items@);
                lemma_docs_of(out@);
                lemma_normalize_seq(docs_of(items@));
                assert(docs_of(out@) =~= spec_normalize_seq(docs_of(items@)));
            }
            ConfigValue::Sequence(out)
        },
        ConfigValue::Mapping(entries) => {
            let n = entries.len();
            let mut out: Vec<(ConfigValue, ConfigValue)> = Vec::new();
            for i in 0..n
                invariant
                    n == entries@.len(),
                    out@.len() == i,
                    forall|j: int| 0 <= j < i ==> doc_of((#[trigger] out@[j]).0) == doc_of(
                        entries@[j].0,
                    ) && doc_of(out@[j].1) == spec_normalize(doc_of(entries@[j].1)),
            {
                proof {
                    assert((*value)->Mapping_0 == *entries);
                    assert(decreases_to!(*value => (*value)->Mapping_0));
                    assert(decreases_to!(*entries => entries@));
                    assert(decreases_to!(entries@ => entries@[i as int]));
                    assert(decreases_to!(entries@[i as int] => entries@[i as int].0));
                    assert(decreases_to!(entries@[i as int] => entries@[i as int].1));
                    assert(decreases_to!(*value => entries@[i as int].0));
                    assert(decreases_to!(*value => entries@[i as int].1));
                }
                let key = entries[i].0.deep_copy();
                let normalized = normalize_value(&entries[i].1);
                out.push((key, normalized));
            }
            proof {
                lemma_doc_entries_of(entries@);
                lemma_doc_entries_of(out@);
                lemma_normalize_entries(doc_entries_of(entries@));
                assert(doc_entries_of(out@) =~= spec_normalize_entries(doc_entries_of(entries@)));
            }
            ConfigValue::Mapping(out)
        },
    }
}

/// Why a configuration could not be produced.
#[derive(Debug)]
pub enum ConfigError {
    /// The file could not be read; carries the reported cause.
    ReadConfigFile { err: String },
    /// The text could not be parsed; carries the reported cause.
    ParseConfig { err: String },
    /// The document's structure differs from the template's.
    StructureValidation { path_str: String, template: String },
}

/// The reported line for each configuration error.
pub open spec fn spec_config_error_message(e: ConfigError) -> Seq<char> {
    match e {
        ConfigError::ReadConfigFile { err } => "Failed to read config file: "@ + err@,
        ConfigError::ParseConfig { err } => "Failed to parse config: "@ + err@,
        ConfigError::StructureValidation { path_str, template } => "The structure of \""@
            + path_str@ + "\" is not valid, please refer to:\n"@ + template@,
    }
}

impl ConfigError {
    /// The human-readable line reported for this error.
    pub fn message(&self) -> (line: String)
        ensures
            line@ == spec_config_error_message(*self),
    {
        let mut line = String::new();
        match self {
            ConfigError::ReadConfigFile { err } => {
                line.append("Failed to read config file: ");
                line.append(err.as_str());
            },
            ConfigError::ParseConfig { err } => {
                line.append("Failed to parse config: ");
                line.append(err.as_str());
            },
            ConfigError::StructureValidation { path_str, template } => {
                line.append("The structure of \"");
                line.append(path_str.as_str());
                line.append("\" is not valid, please refer to:\n");
                line.append(template.as_str());
            },
        }
        assert(line@ =~= spec_config_error_message(*self));
        line
    }
}

/// A configuration document whose structure matched its template.
#[derive(Debug)]
pub struct Config {
    conf: ConfigValue,
}

impl Config {
    /// The document the configuration holds.
    pub closed spec fn spec_doc(&self) -> DocValue {
        doc_of(self.conf)
    }

    /// Accepts the parsed document exactly when its normalized form
    /// equals the template's; otherwise reports a structure mismatch
    /// naming the file and echoing the template text.
    pub fn new(conf: ConfigValue, template: ConfigValue, path_str: String, template_src: String)
        -> (validated: Result<Config, ConfigError>)
        ensures
            spec_normalize(doc_of(conf)) == spec_normalize(doc_of(template)) ==> (
            validated matches Ok(c) && c.spec_doc() == doc_of(conf)),
            spec_normalize(doc_of(conf)) != spec_normalize(doc_of(template)) ==> (
            validated matches Err(e) && e matches ConfigError::StructureValidation {
                path_str: p,
                template: t,
            } && p@ == path_str@ && t@ == template_src@),
    {
        let normalized_conf = normalize_value(&conf);
        let normalized_template = normalize_value(&template);
        if normalized_conf.doc_eq(&normalized_template) {
            Ok(Config { conf })
        } else {
            Err(ConfigError::StructureValidation { path_str, template: template_src })
        }
    }

    /// The validated document.
    pub fn get(&self) -> (value: &ConfigValue)
        ensures
            doc_of(*value) == self.spec_doc(),
    {
        &self.conf
    }
}

} // verus!
