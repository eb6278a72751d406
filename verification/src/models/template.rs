//! Templates: default values for a new instance, read from a TOML file that
//! the user writes. Typed fields are written in their command line form
//! (`"4G"`, `"8000:80"`, `"debian:trixie"`), so a template reads the way a
//! `cubic create` command line does.
use crate::error::Error;
use crate::models::arch::Arch;
use crate::models::data_size::{data_size_parse, data_size_rejection, DataSize};
use crate::models::image_name::{image_name_parse, image_name_rejection, ImageName};
use crate::models::instance_name::is_valid_name;
use crate::models::port_forward::{
    port_forward_parse, port_forward_rejection, PortForward, PortProtocol,
};
use crate::models::user_name::{user_name_rejection, UserName};
use crate::text::{copy_str, push_str, str_eq};
use toml::Value;
use vstd::prelude::*;

verus! {

/// A value of a TOML document, as far as a template reads it.
#[derive(Debug)]
pub enum TomlItem {
    Text(String),
    Integer(i64),
    Boolean(bool),
    /// An array: the text of each element that is a string, `None` for an
    /// element of any other kind.
    Array(Vec<Option<String>>),
    /// A float, a date and time, or a table.
    Other,
}

/// The top-level entries of a TOML document, keys with their values in the
/// order the document writes them, or the parser's message when the text is
/// not TOML.
pub uninterp spec fn toml_document(content: Seq<char>) -> Result<Vec<(String, TomlItem)>, String>;

/// Parses `content` as a TOML table with the `toml` crate
/// (`toml::Table::from_str`) and lists its entries, in document order (the
/// `preserve_order` feature backs the table with an insertion-ordered map).
/// The contract only names the outcome: which texts are TOML and the wording
/// of the parser's messages are the crate's.
#[verifier::external_body]
fn toml_entries(content: &str) -> (r: Result<Vec<(String, TomlItem)>, String>)
    ensures
        r == toml_document(content@),
{
    let table = content.parse::<toml::Table>().map_err(|e| e.to_string())?;
    Ok(table.into_iter().map(|(key, value)| (key, match value {
        Value::String(s) => TomlItem::Text(s),
        Value::Integer(i) => TomlItem::Integer(i),
        Value::Boolean(b) => TomlItem::Boolean(b),
        Value::Array(a) => TomlItem::Array(a.into_iter().map(|e| match e {
            Value::String(s) => Some(s),
            _ => None,
        }).collect()),
        _ => TomlItem::Other,
    })).collect())
}

/// What a template holds: each typed field by the view of its value.
pub struct TemplateModel {
    pub version: Option<u32>,
    pub image: Option<(Seq<char>, Seq<char>, Arch)>,
    pub user: Option<Seq<char>>,
    pub cpus: Option<u16>,
    pub memory: Option<nat>,
    pub disk: Option<nat>,
    pub isolate: Option<bool>,
    pub ports: Seq<(u16, u16, PortProtocol)>,
    pub run: Seq<Seq<char>>,
}

/// A template in which no field is set.
pub open spec fn empty_template() -> TemplateModel {
    TemplateModel {
        version: None,
        image: None,
        user: None,
        cpus: None,
        memory: None,
        disk: None,
        isolate: None,
        ports: Seq::empty(),
        run: Seq::empty(),
    }
}

/// The template versions that this library reads.
pub open spec fn supported_template_versions() -> Seq<u32> {
    seq![1u32]
}

/// The message for an entry that a template refuses.
pub open spec fn field_message(key: Seq<char>, reason: Seq<char>) -> Seq<char> {
    key + ": "@ + reason
}

/// The reason for a refused entry: a key that names no field.
pub open spec fn unknown_field() -> Seq<char> {
    "unknown field"@
}

/// The reason for a refused entry: a value that should be a string.
pub open spec fn expected_text() -> Seq<char> {
    "expected a string"@
}

/// The reason for a refused entry: a value that should be an integer.
pub open spec fn expected_integer() -> Seq<char> {
    "expected an integer"@
}

/// The reason for a refused entry: a value that should be a boolean.
pub open spec fn expected_boolean() -> Seq<char> {
    "expected a boolean"@
}

/// The reason for a refused entry: a value that should be an array of strings.
pub open spec fn expected_texts() -> Seq<char> {
    "expected an array of strings"@
}

/// The reason for a refused entry: an integer too large or too small for its field.
pub open spec fn out_of_range() -> Seq<char> {
    "number out of range"@
}

/// The texts of an array whose elements are all strings.
pub open spec fn text_list(items: Seq<Option<String>>) -> Option<Seq<Seq<char>>>
    decreases items.len(),
{
    if items.len() == 0 {
        Some(Seq::empty())
    } else {
        match (text_list(items.drop_last()), items.last()) {
            (Some(texts), Some(s)) => Some(texts.push(s@)),
            _ => None,
        }
    }
}

/// The port forwardings that an array of strings reads as, or why it does not.
pub open spec fn port_list(items: Seq<Option<String>>) -> Result<Seq<(u16, u16, PortProtocol)>, Seq<char>>
    decreases items.len(),
{
    if items.len() == 0 {
        Ok(Seq::empty())
    } else {
        match port_list(items.drop_last()) {
            Err(reason) => Err(reason),
            Ok(ports) => match items.last() {
                None => Err(expected_texts()),
                Some(s) => match port_forward_parse(s@) {
                    None => Err(port_forward_rejection()),
                    Some(p) => Ok(ports.push(p)),
                },
            },
        }
    }
}

/// The field of `t` that the entry `key = item` sets, or the reason it is refused.
pub open spec fn apply_entry(t: TemplateModel, key: Seq<char>, item: TomlItem, host: Arch) -> Result<TemplateModel, Seq<char>> {
    if key == "version"@ {
        match item {
            TomlItem::Integer(i) => if 0 <= i <= u32::MAX {
                Ok(TemplateModel { version: Some(i as u32), ..t })
            } else {
                Err(out_of_range())
            },
            _ => Err(expected_integer()),
        }
    } else if key == "image"@ {
        match item {
            TomlItem::Text(s) => match image_name_parse(s@, host) {
                Some(v) => Ok(TemplateModel { image: Some(v), ..t }),
                None => Err(image_name_rejection()),
            },
            _ => Err(expected_text()),
        }
    } else if key == "user"@ {
        match item {
            TomlItem::Text(s) => if is_valid_name(s@) {
                Ok(TemplateModel { user: Some(s@), ..t })
            } else {
                Err(user_name_rejection())
            },
            _ => Err(expected_text()),
        }
    } else if key == "cpus"@ {
        match item {
            TomlItem::Integer(i) => if 0 <= i <= u16::MAX {
                Ok(TemplateModel { cpus: Some(i as u16), ..t })
            } else {
                Err(out_of_range())
            },
            _ => Err(expected_integer()),
        }
    } else if key == "memory"@ || key == "disk"@ {
        match item {
            TomlItem::Text(s) => match data_size_parse(s@) {
                Some(n) => if key == "memory"@ {
                    Ok(TemplateModel { memory: Some(n), ..t })
                } else {
                    Ok(TemplateModel { disk: Some(n), ..t })
                },
                None => Err(data_size_rejection()),
            },
            _ => Err(expected_text()),
        }
    } else if key == "isolate"@ {
        match item {
            TomlItem::Boolean(b) => Ok(TemplateModel { isolate: Some(b), ..t }),
            _ => Err(expected_boolean()),
        }
    } else if key == "ports"@ {
        match item {
            TomlItem::Array(a) => match port_list(a@) {
                Ok(ports) => Ok(TemplateModel { ports, ..t }),
                Err(reason) => Err(reason),
            },
            _ => Err(expected_texts()),
        }
    } else if key == "run"@ {
        match item {
            TomlItem::Array(a) => match text_list(a@) {
                Some(run) => Ok(TemplateModel { run, ..t }),
                None => Err(expected_texts()),
            },
            _ => Err(expected_texts()),
        }
    } else {
        Err(unknown_field())
    }
}

/// The template that `entries` set, one after the other from the empty
/// template, or the message for the first entry that is refused. A later
/// entry for a key replaces an earlier one.
pub open spec fn template_entries(entries: Seq<(String, TomlItem)>, host: Arch) -> Result<TemplateModel, Seq<char>>
    decreases entries.len(),
{
    if entries.len() == 0 {
        Ok(empty_template())
    } else {
        match template_entries(entries.drop_last(), host) {
            Err(m) => Err(m),
            Ok(t) => {
                let (key, item) = entries.last();
                match apply_entry(t, key@, item, host) {
                    Ok(next) => Ok(next),
                    Err(reason) => Err(field_message(key@, reason)),
                }
            },
        }
    }
}

/// What reading a template from `entries` gives: an entry that is refused
/// makes the template invalid; then a version must be set, and supported.
pub open spec fn template_outcome(entries: Seq<(String, TomlItem)>, host: Arch, r: Result<Template, Error>) -> bool {
    match template_entries(entries, host) {
        Err(m) => r matches Err(Error::InvalidTemplate(e)) && e@ == m,
        Ok(t) => match t.version {
            None => r matches Err(Error::MissingTemplateVersion),
            Some(v) => if supported_template_versions().contains(v) {
                r matches Ok(x) && x@ == t
            } else {
                r matches Err(Error::UnsupportedTemplateVersion(w)) && w == v
            },
        },
    }
}

/// Default values for a new instance.
#[derive(Debug)]
pub struct Template {
    pub version: Option<u32>,
    pub image: Option<ImageName>,
    pub user: Option<UserName>,
    pub cpus: Option<u16>,
    pub memory: Option<DataSize>,
    pub disk: Option<DataSize>,
    pub isolate: Option<bool>,
    pub ports: Vec<PortForward>,
    pub run: Vec<String>,
}

impl View for Template {
    type V = TemplateModel;

    open spec fn view(&self) -> TemplateModel {
        TemplateModel {
            version: self.version,
            image: match self.image {
                Some(i) => Some(i@),
                None => None,
            },
            user: match self.user {
                Some(u) => Some(u@),
                None => None,
            },
            cpus: self.cpus,
            memory: match self.memory {
                Some(m) => Some(m@),
                None => None,
            },
            disk: match self.disk {
                Some(d) => Some(d@),
                None => None,
            },
            isolate: self.isolate,
            ports: self.ports@.map_values(|p: PortForward| p@),
            run: self.run@.map_values(|s: String| s@),
        }
    }
}

fn is_supported_version(v: u32) -> (r: bool)
    ensures
        r == supported_template_versions().contains(v),
{
    proof {
        if v == 1 {
            assert(supported_template_versions()[0] == v);
        }
    }
    v == 1
}

fn message(key: &str, reason: &str) -> (r: String)
    ensures
        r@ == field_message(key@, reason@),
{
    let mut m = copy_str(key);
    push_str(&mut m, ": ");
    push_str(&mut m, reason);
    proof {
        reveal_strlit(": ");
    }
    m
}

fn text_list_exec(items: &Vec<Option<String>>) -> (r: Option<Vec<String>>)
    ensures
        r matches Some(v) ==> text_list(items@) == Some(v@.map_values(|s: String| s@)),
        r is None ==> text_list(items@) is None,
{
    let mut texts: Vec<String> = Vec::new();
    let mut i: usize = 0;
    while i < items.len()
        invariant
            i <= items@.len(),
            text_list(items@.take(i as int)) == Some(texts@.map_values(|s: String| s@)),
        decreases items@.len() - i,
    {
        assert(items@.take(i + 1).drop_last() =~= items@.take(i as int));
        match &items[i] {
            Some(s) => {
                texts.push(copy_str(s.as_str()));
                assert(texts@.map_values(|s: String| s@) =~= text_list(items@.take(i as int))->Some_0.push(s@));
            },
            None => {
                proof {
                    lemma_text_list_prefix(items@, i as int + 1);
                }
                return None;
            },
        }
        i = i + 1;
    }
    assert(items@.take(i as int) =~= items@);
    Some(texts)
}

/// An array with a refused prefix is refused.
proof fn lemma_text_list_prefix(items: Seq<Option<String>>, n: int)
    requires
        0 <= n <= items.len(),
        text_list(items.take(n)) is None,
    ensures
        text_list(items) is None,
    decreases items.len() - n,
{
    if n < items.len() {
        assert(items.take(n + 1).drop_last() =~= items.take(n));
        lemma_text_list_prefix(items, n + 1);
    } else {
        assert(items.take(n) =~= items);
    }
}

/// An array with a refused prefix is refused for the prefix's reason.
proof fn lemma_port_list_prefix(items: Seq<Option<String>>, n: int)
    requires
        0 <= n <= items.len(),
        port_list(items.take(n)) is Err,
    ensures
        port_list(items) == port_list(items.take(n)),
    decreases items.len() - n,
{
    if n < items.len() {
        assert(items.take(n + 1).drop_last() =~= items.take(n));
        lemma_port_list_prefix(items, n + 1);
    } else {
        assert(items.take(n) =~= items);
    }
}

fn port_list_exec(items: &Vec<Option<String>>) -> (r: Result<Vec<PortForward>, String>)
    ensures
        r matches Ok(v) ==> port_list(items@) == Ok::<_, Seq<char>>(v@.map_values(|p: PortForward| p@)),
        r matches Err(e) ==> port_list(items@) == Err::<Seq<(u16, u16, PortProtocol)>, _>(e@),
{
    let mut ports: Vec<PortForward> = Vec::new();
    let mut i: usize = 0;
    assert(items@.take(0) =~= Seq::<Option<String>>::empty());
    assert(ports@.map_values(|p: PortForward| p@) =~= Seq::<(u16, u16, PortProtocol)>::empty());
    while i < items.len()
        invariant
            i <= items@.len(),
            port_list(items@.take(i as int)) == Ok::<_, Seq<char>>(ports@.map_values(|p: PortForward| p@)),
        decreases items@.len() - i,
    {
        assert(items@.take(i + 1).drop_last() =~= items@.take(i as int));
        match &items[i] {
            Some(s) => match PortForward::from_str(s.as_str()) {
                Ok(p) => {
                    ports.push(p);
                    assert(ports@.map_values(|p: PortForward| p@) =~= port_list(items@.take(i as int))->Ok_0.push(p@));
                },
                Err(e) => {
                    proof {
                        lemma_port_list_prefix(items@, i as int + 1);
                    }
                    return Err(e);
                },
            },
            None => {
                proof {
                    lemma_port_list_prefix(items@, i as int + 1);
                    reveal_strlit("expected an array of strings");
                }
                return Err("expected an array of strings".to_owned());
            },
        }
        i = i + 1;
    }
    assert(items@.take(i as int) =~= items@);
    Ok(ports)
}

impl Template {
    fn empty() -> (r: Template)
        ensures
            r@ == empty_template(),
    {
        let r = Template {
            version: None,
            image: None,
            user: None,
            cpus: None,
            memory: None,
            disk: None,
            isolate: None,
            ports: Vec::new(),
            run: Vec::new(),
        };
        assert(r@.ports =~= Seq::<(u16, u16, PortProtocol)>::empty());
        assert(r@.run =~= Seq::<Seq<char>>::empty());
        r
    }

    /// Sets the field that `key = item` names, or says why the entry is refused.
    fn apply(&mut self, key: &str, item: &TomlItem, host: Arch) -> (r: Result<(), String>)
        ensures
            match apply_entry(old(self)@, key@, *item, host) {
                Ok(t) => r is Ok && final(self)@ == t,
                Err(reason) => r matches Err(e) && e@ == reason,
            },
    {
        proof {
            reveal_strlit("version");
            reveal_strlit("image");
            reveal_strlit("user");
            reveal_strlit("cpus");
            reveal_strlit("memory");
            reveal_strlit("disk");
            reveal_strlit("isolate");
            reveal_strlit("ports");
            reveal_strlit("run");
            reveal_strlit("expected a string");
            reveal_strlit("expected an integer");
            reveal_strlit("expected a boolean");
            reveal_strlit("expected an array of strings");
            reveal_strlit("number out of range");
            reveal_strlit("unknown field");
        }
        if str_eq(key, "version") {
            match item {
                TomlItem::Integer(i) => if 0 <= *i && *i <= 0xffff_ffff {
                    self.version = Some(*i as u32);
                    Ok(())
                } else {
                    Err("number out of range".to_owned())
                },
                _ => Err("expected an integer".to_owned()),
            }
        } else if str_eq(key, "image") {
            match item {
                TomlItem::Text(s) => match ImageName::parse(s.as_str(), host) {
                    Ok(name) => {
                        self.image = Some(name);
                        Ok(())
                    },
                    Err(e) => Err(e),
                },
                _ => Err("expected a string".to_owned()),
            }
        } else if str_eq(key, "user") {
            match item {
                TomlItem::Text(s) => match UserName::from_str(s.as_str()) {
                    Ok(name) => {
                        self.user = Some(name);
                        Ok(())
                    },
                    Err(e) => Err(e),
                },
                _ => Err("expected a string".to_owned()),
            }
        } else if str_eq(key, "cpus") {
            match item {
                TomlItem::Integer(i) => if 0 <= *i && *i <= 0xffff {
                    self.cpus = Some(*i as u16);
                    Ok(())
                } else {
                    Err("number out of range".to_owned())
                },
                _ => Err("expected an integer".to_owned()),
            }
        } else if str_eq(key, "memory") || str_eq(key, "disk") {
            match item {
                TomlItem::Text(s) => match DataSize::from_str(s.as_str()) {
                    Ok(size) => {
                        if str_eq(key, "memory") {
                            self.memory = Some(size);
                        } else {
                            self.disk = Some(size);
                        }
                        Ok(())
                    },
                    Err(e) => Err(e),
                },
                _ => Err("expected a string".to_owned()),
            }
        } else if str_eq(key, "isolate") {
            match item {
                TomlItem::Boolean(b) => {
                    self.isolate = Some(*b);
                    Ok(())
                },
                _ => Err("expected a boolean".to_owned()),
            }
        } else if str_eq(key, "ports") {
            match item {
                TomlItem::Array(a) => match port_list_exec(a) {
                    Ok(ports) => {
                        self.ports = ports;
                        Ok(())
                    },
                    Err(e) => Err(e),
                },
                _ => Err("expected an array of strings".to_owned()),
            }
        } else if str_eq(key, "run") {
            match item {
                TomlItem::Array(a) => match text_list_exec(a) {
                    Some(run) => {
                        self.run = run;
                        Ok(())
                    },
                    None => Err("expected an array of strings".to_owned()),
                },
                _ => Err("expected an array of strings".to_owned()),
            }
        } else {
            Err("unknown field".to_owned())
        }
    }

    /// Reads a template from the entries of its TOML document: each entry sets
    /// the field it names, in order; an unknown key, a value of the wrong kind
    /// or a value that does not read as its field is `InvalidTemplate`. Then
    /// the version must be set (`MissingTemplateVersion`) and supported
    /// (`UnsupportedTemplateVersion`). An image without an architecture is for
    /// `host`.
    pub fn from_entries(entries: &Vec<(String, TomlItem)>, host: Arch) -> (r: Result<Template, Error>)
        ensures
            template_outcome(entries@, host, r),
    {
        let mut t = Template::empty();
        let mut i: usize = 0;
        while i < entries.len()
            invariant
                i <= entries@.len(),
                template_entries(entries@.take(i as int), host) == Ok::<_, Seq<char>>(t@),
            decreases entries@.len() - i,
        {
            assert(entries@.take(i + 1).drop_last() =~= entries@.take(i as int));
            let (key, item) = &entries[i];
            match t.apply(key.as_str(), item, host) {
                Ok(()) => {},
                Err(reason) => {
                    let m = message(key.as_str(), reason.as_str());
                    proof {
                        lemma_template_entries_prefix(entries@, i as int + 1, host);
                    }
                    return Err(Error::InvalidTemplate(m));
                },
            }
            i = i + 1;
        }
        assert(entries@.take(i as int) =~= entries@);
        match t.version {
            None => Err(Error::MissingTemplateVersion),
            Some(v) => if is_supported_version(v) {
                Ok(t)
            } else {
                Err(Error::UnsupportedTemplateVersion(v))
            },
        }
    }

    /// Reads a template from the text of its TOML file. A text that is not
    /// TOML is `InvalidTemplate` with the parser's message; otherwise the
    /// document's entries are read as `from_entries` reads them.
    pub fn parse(content: &str, host: Arch) -> (r: Result<Template, Error>)
        ensures
            match toml_document(content@) {
                Err(m) => r matches Err(Error::InvalidTemplate(e)) && e@ == m@,
                Ok(entries) => template_outcome(entries@, host, r),
            },
    {
        match toml_entries(content) {
            Err(m) => Err(Error::InvalidTemplate(m)),
            Ok(entries) => Template::from_entries(&entries, host),
        }
    }
}

/// Entries with a refused prefix are refused with the prefix's message.
proof fn lemma_template_entries_prefix(entries: Seq<(String, TomlItem)>, n: int, host: Arch)
    requires
        0 <= n <= entries.len(),
        template_entries(entries.take(n), host) is Err,
    ensures
        template_entries(entries, host) == template_entries(entries.take(n), host),
    decreases entries.len() - n,
{
    if n < entries.len() {
        assert(entries.take(n + 1).drop_last() =~= entries.take(n));
        lemma_template_entries_prefix(entries, n + 1, host);
    } else {
        assert(entries.take(n) =~= entries);
    }
}

} // verus!

verus! {

/// Whether a key names a field of a template.
pub open spec fn is_template_key(key: Seq<char>) -> bool {
    key == "version"@ || key == "image"@ || key == "user"@ || key == "cpus"@ || key == "memory"@
        || key == "disk"@ || key == "isolate"@ || key == "ports"@ || key == "run"@
}

/// Whether no entry names `key`.
pub open spec fn omits(entries: Seq<(String, TomlItem)>, key: Seq<char>) -> bool {
    forall|i: int| 0 <= i < entries.len() ==> (#[trigger] entries[i]).0@ != key
}

/// A template that names a key which is no field of a template is refused.
pub proof fn law_unknown_key_is_refused(entries: Seq<(String, TomlItem)>, host: Arch, i: int)
    requires
        0 <= i < entries.len(),
        !is_template_key(entries[i].0@),
    ensures
        template_entries(entries, host) is Err,
    decreases entries.len(),
{
    if i < entries.len() - 1 {
        assert(entries.drop_last()[i] == entries[i]);
        law_unknown_key_is_refused(entries.drop_last(), host, i);
    }
}

/// A field that no entry names keeps its default: unset, or empty for the
/// lists.
pub proof fn law_omitted_fields_stay_unset(entries: Seq<(String, TomlItem)>, host: Arch)
    ensures
        template_entries(entries, host) matches Ok(t) ==> {
            &&& omits(entries, "version"@) ==> t.version is None
            &&& omits(entries, "image"@) ==> t.image is None
            &&& omits(entries, "user"@) ==> t.user is None
            &&& omits(entries, "cpus"@) ==> t.cpus is None
            &&& omits(entries, "memory"@) ==> t.memory is None
            &&& omits(entries, "disk"@) ==> t.disk is None
            &&& omits(entries, "isolate"@) ==> t.isolate is None
            &&& omits(entries, "ports"@) ==> t.ports.len() == 0
            &&& omits(entries, "run"@) ==> t.run.len() == 0
        },
    decreases entries.len(),
{
    if entries.len() > 0 {
        let rest = entries.drop_last();
        law_omitted_fields_stay_unset(rest, host);
        assert forall|key: Seq<char>| omits(entries, key) implies omits(rest, key) by {
            assert forall|i: int| 0 <= i < rest.len() implies (#[trigger] rest[i]).0@ != key by {
                assert(rest[i] == entries[i]);
            }
        }
        assert forall|key: Seq<char>| omits(entries, key) implies entries.last().0@ != key by {
            assert(entries[entries.len() - 1] == entries.last());
        }
    }
}

} // verus!

verus! {

/// What a template holds of the entry `key = item`: each typed field is the
/// value that the entry writes, read in the field's own form.
pub open spec fn entry_taken_as_written(t: TemplateModel, key: Seq<char>, item: TomlItem, host: Arch) -> bool {
    &&& key == "version"@ ==> (item matches TomlItem::Integer(i) && t.version == Some(i as u32))
    &&& key == "image"@ ==> (item matches TomlItem::Text(s) && t.image == image_name_parse(s@, host))
    &&& key == "user"@ ==> (item matches TomlItem::Text(s) && t.user == Some(s@))
    &&& key == "cpus"@ ==> (item matches TomlItem::Integer(i) && t.cpus == Some(i as u16))
    &&& key == "memory"@ ==> (item matches TomlItem::Text(s) && t.memory == data_size_parse(s@))
    &&& key == "disk"@ ==> (item matches TomlItem::Text(s) && t.disk == data_size_parse(s@))
    &&& key == "isolate"@ ==> (item matches TomlItem::Boolean(b) && t.isolate == Some(b))
    &&& key == "ports"@ ==> (item matches TomlItem::Array(a) && t.ports.len() == a@.len() && forall|i: int|
        0 <= i < a@.len() ==> (#[trigger] a@[i] matches Some(x) && port_forward_parse(x@) == Some(t.ports[i])))
    &&& key == "run"@ ==> (item matches TomlItem::Array(a) && t.run.len() == a@.len() && forall|i: int|
        0 <= i < a@.len() ==> (#[trigger] a@[i] matches Some(x) && t.run[i] == x@))
}

proof fn lemma_text_list_elements(items: Seq<Option<String>>)
    requires
        text_list(items) is Some,
    ensures
        text_list(items)->Some_0.len() == items.len(),
        forall|i: int|
            0 <= i < items.len() ==> (#[trigger] items[i] matches Some(x) && text_list(items)->Some_0[i] == x@),
    decreases items.len(),
{
    if items.len() > 0 {
        lemma_text_list_elements(items.drop_last());
        assert forall|i: int| 0 <= i < items.len() implies (#[trigger] items[i] matches Some(x)
            && text_list(items)->Some_0[i] == x@) by {
            if i < items.len() - 1 {
                assert(items.drop_last()[i] == items[i]);
            }
        }
    }
}

proof fn lemma_port_list_elements(items: Seq<Option<String>>)
    requires
        port_list(items) is Ok,
    ensures
        port_list(items)->Ok_0.len() == items.len(),
        forall|i: int|
            0 <= i < items.len() ==> (#[trigger] items[i] matches Some(x) && port_forward_parse(x@) == Some(
                port_list(items)->Ok_0[i],
            )),
    decreases items.len(),
{
    if items.len() > 0 {
        lemma_port_list_elements(items.drop_last());
        assert forall|i: int| 0 <= i < items.len() implies (#[trigger] items[i] matches Some(x)
            && port_forward_parse(x@) == Some(port_list(items)->Ok_0[i])) by {
            if i < items.len() - 1 {
                assert(items.drop_last()[i] == items[i]);
            }
        }
    }
}

/// Setting a field from an entry takes the entry as written.
proof fn lemma_apply_takes_entry(t: TemplateModel, key: Seq<char>, item: TomlItem, host: Arch)
    requires
        apply_entry(t, key, item, host) is Ok,
    ensures
        entry_taken_as_written(apply_entry(t, key, item, host)->Ok_0, key, item, host),
{
    reveal_strlit("version");
    reveal_strlit("image");
    reveal_strlit("user");
    reveal_strlit("cpus");
    reveal_strlit("memory");
    reveal_strlit("disk");
    reveal_strlit("isolate");
    reveal_strlit("ports");
    reveal_strlit("run");
    assert("run"@.len() == 3 && "version"@.len() == 7 && "image"@.len() == 5 && "user"@.len() == 4
        && "cpus"@.len() == 4 && "memory"@.len() == 6 && "disk"@.len() == 4 && "isolate"@.len() == 7
        && "ports"@.len() == 5);
    assert("user"@[0] != "cpus"@[0] && "user"@[0] != "disk"@[0] && "cpus"@[0] != "disk"@[0]);
    assert("version"@[0] != "isolate"@[0] && "image"@[0] != "ports"@[0]);
    assert("user"@ != "cpus"@ && "user"@ != "disk"@ && "cpus"@ != "disk"@ && "version"@ != "isolate"@
        && "image"@ != "ports"@);
    if key == "ports"@ {
        if let TomlItem::Array(a) = item {
            lemma_port_list_elements(a@);
        }
    }
    if key == "run"@ {
        assert(key != "version"@ && key != "image"@ && key != "user"@ && key != "cpus"@ && key != "memory"@
            && key != "disk"@ && key != "isolate"@ && key != "ports"@);
        if let TomlItem::Array(a) = item {
            assert(text_list(a@) is Some);
            lemma_text_list_elements(a@);
            let t2 = apply_entry(t, key, item, host)->Ok_0;
            assert(t2.run == text_list(a@)->Some_0);
            assert(t2.run.len() == a@.len());
            assert(forall|i: int| 0 <= i < a@.len() ==> (#[trigger] a@[i] matches Some(x) && t2.run[i] == x@));
            assert(entry_taken_as_written(t2, key, item, host));
        }
    }
}

/// An entry for another key leaves what an earlier entry set.
proof fn lemma_apply_keeps_other_entry(
    t: TemplateModel,
    key: Seq<char>,
    item: TomlItem,
    other: Seq<char>,
    other_item: TomlItem,
    host: Arch,
)
    requires
        entry_taken_as_written(t, key, item, host),
        other != key,
        apply_entry(t, other, other_item, host) is Ok,
    ensures
        entry_taken_as_written(apply_entry(t, other, other_item, host)->Ok_0, key, item, host),
{
}

proof fn lemma_entry_stays_taken(entries: Seq<(String, TomlItem)>, host: Arch, k: int, n: int)
    requires
        0 <= k < n <= entries.len(),
        template_entries(entries.take(n), host) is Ok,
        forall|j: int| k < j < entries.len() ==> (#[trigger] entries[j]).0@ != entries[k].0@,
    ensures
        entry_taken_as_written(template_entries(entries.take(n), host)->Ok_0, entries[k].0@, entries[k].1, host),
    decreases n - k,
{
    let prefix = entries.take(n);
    assert(prefix.drop_last() =~= entries.take(n - 1));
    assert(prefix.last() == entries[n - 1]);
    if template_entries(entries.take(n - 1), host) is Err {
        assert(template_entries(prefix, host) is Err);
    }
    let before = template_entries(entries.take(n - 1), host)->Ok_0;
    if n == k + 1 {
        lemma_apply_takes_entry(before, entries[k].0@, entries[k].1, host);
    } else {
        lemma_entry_stays_taken(entries, host, k, n - 1);
        lemma_apply_keeps_other_entry(
            before,
            entries[k].0@,
            entries[k].1,
            entries[n - 1].0@,
            entries[n - 1].1,
            host,
        );
    }
}

/// Law: a template that is read takes each field from the last entry that
/// names it, as written: a boolean, a number or a text is that value, a
/// size, an image or a port forwarding is what its text reads as, and a
/// list holds the array's elements in order.
pub proof fn law_fields_take_their_entries(entries: Seq<(String, TomlItem)>, host: Arch, k: int)
    requires
        0 <= k < entries.len(),
        template_entries(entries, host) is Ok,
        forall|j: int| k < j < entries.len() ==> (#[trigger] entries[j]).0@ != entries[k].0@,
    ensures
        entry_taken_as_written(template_entries(entries, host)->Ok_0, entries[k].0@, entries[k].1, host),
{
    assert(entries.take(entries.len() as int) =~= entries);
    lemma_entry_stays_taken(entries, host, k, entries.len() as int);
}

} // verus!
