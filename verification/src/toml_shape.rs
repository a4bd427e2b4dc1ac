//! The shape of the shell section, checked on the parsed configuration file before it is decoded.
use crate::faults::{self, Fault};
use crate::members;
use crate::text::{join3, same};
use vstd::prelude::*;
use vstd::string::*;

verus! {

/// The shape of a TOML value: text, another single value, a list, or a table with its members in
/// ascending order of their names.
#[derive(Debug)]
pub enum TomlNode {
    Text,
    Scalar,
    Array(Vec<TomlNode>),
    Table(Vec<TomlMember>),
}

/// One member of a table.
#[derive(Debug)]
pub struct TomlMember {
    pub name: String,
    pub value: TomlNode,
}

/// The mathematical shape of a TOML value.
pub enum TomlView {
    Text,
    Scalar,
    Array(Seq<TomlView>),
    Table(Seq<(Seq<char>, TomlView)>),
}

impl TomlNode {
    pub open spec fn view(self) -> TomlView
        decreases self,
    {
        match self {
            TomlNode::Text => TomlView::Text,
            TomlNode::Scalar => TomlView::Scalar,
            TomlNode::Array(items) => TomlView::Array(
                Seq::new(
                    items@.len(),
                    |i: int|
                        if 0 <= i < items@.len() {
                            items@[i].view()
                        } else {
                            TomlView::Scalar
                        },
                ),
            ),
            TomlNode::Table(entries) => TomlView::Table(
                Seq::new(
                    entries@.len(),
                    |i: int|
                        if 0 <= i < entries@.len() {
                            (entries@[i].name@, entries@[i].value.view())
                        } else {
                            (Seq::empty(), TomlView::Scalar)
                        },
                ),
            ),
        }
    }
}

/// The shapes of the members of a table.
pub open spec fn table_view(entries: Seq<TomlMember>) -> Seq<(Seq<char>, TomlView)> {
    Seq::new(entries.len(), |i: int| (entries[i].name@, entries[i].value.view()))
}

/// The shapes of the items of a list.
pub open spec fn array_view(items: Seq<TomlNode>) -> Seq<TomlView> {
    Seq::new(items.len(), |i: int| items[i].view())
}

proof fn table_view_is(entries: Vec<TomlMember>)
    ensures
        TomlNode::Table(entries).view() == TomlView::Table(table_view(entries@)),
{
    assert(TomlNode::Table(entries).view()->Table_0 =~= table_view(entries@));
}

proof fn array_view_is(items: Vec<TomlNode>)
    ensures
        TomlNode::Array(items).view() == TomlView::Array(array_view(items@)),
{
    assert(TomlNode::Array(items).view()->Array_0 =~= array_view(items@));
}

#[verifier::external_type_specification]
#[verifier::external_body]
pub struct ExTomlValue(toml::Value);

/// The shape of a `toml::Value`.
pub uninterp spec fn toml_content(value: toml::Value) -> TomlView;

/// What `toml::from_str` reads a text as: the shape of the value, or the text of its error.
pub uninterp spec fn parsed_toml(content: Seq<char>) -> Result<TomlView, Seq<char>>;

/// A `toml::Value` taken apart by one level.
pub enum OpenToml {
    Text,
    Scalar,
    Array(Vec<toml::Value>),
    Table(Vec<(String, toml::Value)>),
}

/// The shape of a value taken apart.
pub open spec fn open_shape(open: OpenToml) -> TomlView {
    match open {
        OpenToml::Text => TomlView::Text,
        OpenToml::Scalar => TomlView::Scalar,
        OpenToml::Array(items) => TomlView::Array(
            Seq::new(items@.len(), |i: int| toml_content(items@[i])),
        ),
        OpenToml::Table(entries) => TomlView::Table(
            Seq::new(entries@.len(), |i: int| (entries@[i].0@, toml_content(entries@[i].1))),
        ),
    }
}

/// `toml::from_str` into a `toml::Value`: the value, or the text of the error, depends on the
/// text alone.
#[verifier::external_body]
fn parse_toml(content: &str) -> (r: Result<toml::Value, String>)
    ensures
        match r {
            Ok(value) => parsed_toml(content@) == Ok::<TomlView, Seq<char>>(toml_content(value)),
            Err(error) => parsed_toml(content@) == Err::<TomlView, Seq<char>>(error@),
        },
{
    toml::from_str::<toml::Value>(content).map_err(|error| error.to_string())
}

/// The variants of a `toml::Value`. The values of those that are neither text, list nor table are
/// not taken over.
#[verifier::external_body]
fn open_toml(value: toml::Value) -> (r: OpenToml)
    ensures
        toml_content(value) == open_shape(r),
{
    match value {
        toml::Value::String(_) => OpenToml::Text,
        toml::Value::Integer(_) => OpenToml::Scalar,
        toml::Value::Float(_) => OpenToml::Scalar,
        toml::Value::Boolean(_) => OpenToml::Scalar,
        toml::Value::Datetime(_) => OpenToml::Scalar,
        toml::Value::Array(items) => OpenToml::Array(items),
        toml::Value::Table(table) => OpenToml::Table(table.into_iter().collect()),
    }
}

/// Takes the shape of a `toml::Value` over.
pub fn shape_of_value(value: toml::Value) -> (r: TomlNode)
    ensures
        r.view() == toml_content(value),
    decreases toml_content(value),
{
    let ghost whole = toml_content(value);
    match open_toml(value) {
        OpenToml::Text => TomlNode::Text,
        OpenToml::Scalar => TomlNode::Scalar,
        OpenToml::Array(items) => {
            let ghost all = items@;
            let mut made: Vec<TomlNode> = Vec::new();
            for item in it: items
                invariant
                    whole == toml_content(value),
                    whole is Array,
                    whole->Array_0.len() == all.len(),
                    forall|j: int|
                        0 <= j < all.len() ==> #[trigger] whole->Array_0[j] == toml_content(all[j]),
                    it.seq() == all,
                    made@.len() == it.index(),
                    forall|j: int|
                        0 <= j < made@.len() ==> (#[trigger] made@[j]).view() == toml_content(
                            all[j],
                        ),
            {
                let ghost at = made@.len() as int;
                proof {
                    assert(item == all[at]);
                    assert(decreases_to!(whole => whole->Array_0));
                    assert(decreases_to!(whole->Array_0 => whole->Array_0[at]));
                }
                made.push(shape_of_value(item));
            }
            proof {
                array_view_is(made);
                assert(array_view(made@) =~= whole->Array_0);
            }
            TomlNode::Array(made)
        },
        OpenToml::Table(entries) => {
            let ghost all = entries@;
            let mut made: Vec<TomlMember> = Vec::new();
            for entry in it: entries
                invariant
                    whole == toml_content(value),
                    whole is Table,
                    whole->Table_0.len() == all.len(),
                    forall|j: int|
                        0 <= j < all.len() ==> #[trigger] whole->Table_0[j] == (
                            all[j].0@,
                            toml_content(all[j].1),
                        ),
                    it.seq() == all,
                    made@.len() == it.index(),
                    forall|j: int|
                        0 <= j < made@.len() ==> (#[trigger] made@[j]).value.view() == toml_content(
                            all[j].1,
                        ) && made@[j].name@ == all[j].0@,
            {
                let ghost at = made@.len() as int;
                let (name, item) = entry;
                proof {
                    assert((name, item) == all[at]);
                    assert(decreases_to!(whole => whole->Table_0));
                    assert(decreases_to!(whole->Table_0 => whole->Table_0[at]));
                    assert(decreases_to!(whole->Table_0[at] => whole->Table_0[at].1));
                }
                made.push(TomlMember { name, value: shape_of_value(item) });
            }
            proof {
                table_view_is(made);
                assert(table_view(made@) =~= whole->Table_0);
            }
            TomlNode::Table(made)
        },
    }
}

/// What a member that must be text where it is there is blamed for.
pub open spec fn text_fault(
    table: Seq<(Seq<char>, TomlView)>,
    field: Seq<char>,
    path: Seq<char>,
) -> Fault {
    match members::value_of(table, field) {
        Some(value) => if value is Text {
            None
        } else {
            Some(path + " must be a string"@)
        },
        None => None,
    }
}

/// The path of a field of a profile.
pub open spec fn profile_path(name: Seq<char>, field: Seq<char>) -> Seq<char> {
    "shell.profiles."@ + name + field
}

/// All items are text.
pub open spec fn all_text(items: Seq<TomlView>) -> bool {
    forall|i: int| 0 <= i < items.len() ==> (#[trigger] items[i]) is Text
}

/// All values are text.
pub open spec fn all_text_values(table: Seq<(Seq<char>, TomlView)>) -> bool {
    forall|i: int| 0 <= i < table.len() ==> (#[trigger] table[i]).1 is Text
}

/// What is wrong with the arguments of a profile.
pub open spec fn args_fault(table: Seq<(Seq<char>, TomlView)>, name: Seq<char>) -> Fault {
    match members::value_of(table, "args"@) {
        None => None,
        Some(value) => if value is Array && all_text(value->Array_0) {
            None
        } else {
            Some(profile_path(name, ".args must be a string array"@))
        },
    }
}

/// What is wrong with the environment of a profile.
pub open spec fn env_fault(table: Seq<(Seq<char>, TomlView)>, name: Seq<char>) -> Fault {
    match members::value_of(table, "env"@) {
        None => None,
        Some(value) => if value is Table && all_text_values(value->Table_0) {
            None
        } else {
            Some(profile_path(name, ".env must be a string map"@))
        },
    }
}

/// What is wrong with the shape of the profiles, profile by profile.
pub open spec fn profile_shape_faults(profiles: Seq<(Seq<char>, TomlView)>) -> spec_fn(
    int,
) -> Fault {
    |i: int|
        {
            let name = profiles[i].0;
            match profiles[i].1 {
                TomlView::Table(table) => faults::or_else(
                    text_fault(table, "description"@, profile_path(name, ".description"@)),
                    faults::or_else(
                        text_fault(table, "program"@, profile_path(name, ".program"@)),
                        faults::or_else(
                            text_fault(table, "dialect"@, profile_path(name, ".dialect"@)),
                            faults::or_else(
                                text_fault(
                                    table,
                                    "init_script"@,
                                    profile_path(name, ".init_script"@),
                                ),
                                faults::or_else(args_fault(table, name), env_fault(table, name)),
                            ),
                        ),
                    ),
                ),
                _ => Some(profile_path(name, " must be a table"@)),
            }
        }
}

/// What is wrong with the shape of the shell section of a document.
pub open spec fn shell_shape_fault(document: TomlView) -> Fault {
    let shell = match document {
        TomlView::Table(table) => members::value_of(table, "shell"@),
        _ => None,
    };
    match shell {
        None => None,
        Some(TomlView::Table(table)) => faults::or_else(
            text_fault(table, "default_profile"@, "shell.default_profile"@),
            faults::or_else(
                text_fault(table, "dialect"@, "shell.dialect"@),
                match members::value_of(table, "profiles"@) {
                    None => None,
                    Some(TomlView::Table(profiles)) => faults::first_fault(
                        0,
                        profiles.len() as int,
                        profile_shape_faults(profiles),
                    ),
                    Some(_) => Some("shell.profiles must be a table"@),
                },
            ),
        ),
        Some(_) => Some("shell must be a table"@),
    }
}

/// What is wrong with a configuration text: it is no TOML, or the shape of its shell section is
/// wrong.
pub open spec fn toml_shape_fault(content: Seq<char>) -> Fault {
    match parsed_toml(content) {
        Err(error) => Some("failed to parse config TOML syntax: "@ + error),
        Ok(document) => shell_shape_fault(document),
    }
}

fn lookup<'a>(entries: &'a Vec<TomlMember>, name: &str) -> (r: Option<&'a TomlNode>)
    ensures
        match r {
            Some(found) => members::value_of(table_view(entries@), name@) == Some(found.view()),
            None => members::value_of(table_view(entries@), name@) is None,
        },
{
    let ghost seen = table_view(entries@);
    for i in 0..entries.len()
        invariant
            seen == table_view(entries@),
            forall|j: int| 0 <= j < i ==> (#[trigger] seen[j]).0 != name@,
    {
        if same(entries[i].name.as_str(), name) {
            proof {
                assert(seen[i as int].0 == name@);
                members::position_is(seen, name@, i as int);
            }
            return Some(&entries[i].value);
        }
        assert(seen[i as int].0 != name@);
    }
    proof {
        members::position_is(seen, name@, seen.len() as int);
    }
    None
}

fn is_text(node: &TomlNode) -> (r: bool)
    ensures
        r == (node.view() is Text),
{
    match node {
        TomlNode::Text => true,
        _ => false,
    }
}

/// Checks that a member is text where it is there.
pub fn validate_optional_toml_string(table: &Vec<TomlMember>, field: &str, path: &str) -> (r:
    Result<(), String>)
    ensures
        faults::reports(r, text_fault(table_view(table@), field@, path@)),
{
    if let Some(value) = lookup(table, field) {
        if !is_text(value) {
            return Err(path.to_owned().concat(" must be a string"));
        }
    }
    Ok(())
}

fn check_args(table: &Vec<TomlMember>, name: &str) -> (r: Result<(), String>)
    ensures
        faults::reports(r, args_fault(table_view(table@), name@)),
{
    match lookup(table, "args") {
        None => Ok(()),
        Some(TomlNode::Array(items)) => {
            proof {
                array_view_is(*items);
            }
            for i in 0..items.len()
                invariant
                    members::value_of(table_view(table@), "args"@) == Some(
                        TomlView::Array(array_view(items@)),
                    ),
                    forall|j: int| 0 <= j < i ==> (#[trigger] array_view(items@)[j]) is Text,
            {
                if !is_text(&items[i]) {
                    assert(!(array_view(items@)[i as int] is Text));
                    return Err(join3("shell.profiles.", name, ".args must be a string array"));
                }
            }
            Ok(())
        },
        Some(_) => Err(join3("shell.profiles.", name, ".args must be a string array")),
    }
}

fn check_env(table: &Vec<TomlMember>, name: &str) -> (r: Result<(), String>)
    ensures
        faults::reports(r, env_fault(table_view(table@), name@)),
{
    match lookup(table, "env") {
        None => Ok(()),
        Some(TomlNode::Table(entries)) => {
            proof {
                table_view_is(*entries);
            }
            for i in 0..entries.len()
                invariant
                    members::value_of(table_view(table@), "env"@) == Some(
                        TomlView::Table(table_view(entries@)),
                    ),
                    forall|j: int| 0 <= j < i ==> (#[trigger] table_view(entries@)[j]).1 is Text,
            {
                if !is_text(&entries[i].value) {
                    assert(!(table_view(entries@)[i as int].1 is Text));
                    return Err(join3("shell.profiles.", name, ".env must be a string map"));
                }
            }
            Ok(())
        },
        Some(_) => Err(join3("shell.profiles.", name, ".env must be a string map")),
    }
}

fn check_profile(profiles: &Vec<TomlMember>, i: usize) -> (r: Result<(), String>)
    requires
        i < profiles@.len(),
    ensures
        faults::reports(r, profile_shape_faults(table_view(profiles@))(i as int)),
{
    let name = profiles[i].name.as_str();
    match &profiles[i].value {
        TomlNode::Table(table) => {
            proof {
                table_view_is(*table);
            }
            validate_optional_toml_string(
                table,
                "description",
                join3("shell.profiles.", name, ".description").as_str(),
            )?;
            validate_optional_toml_string(
                table,
                "program",
                join3("shell.profiles.", name, ".program").as_str(),
            )?;
            validate_optional_toml_string(
                table,
                "dialect",
                join3("shell.profiles.", name, ".dialect").as_str(),
            )?;
            validate_optional_toml_string(
                table,
                "init_script",
                join3("shell.profiles.", name, ".init_script").as_str(),
            )?;
            check_args(table, name)?;
            check_env(table, name)
        },
        _ => Err(join3("shell.profiles.", name, " must be a table")),
    }
}

fn check_profiles(profiles: &Vec<TomlMember>) -> (r: Result<(), String>)
    ensures
        faults::reports(
            r,
            faults::first_fault(
                0,
                profiles@.len() as int,
                profile_shape_faults(table_view(profiles@)),
            ),
        ),
{
    let ghost check = profile_shape_faults(table_view(profiles@));
    for i in 0..profiles.len()
        invariant
            check == profile_shape_faults(table_view(profiles@)),
            forall|k: int| 0 <= k < i ==> (#[trigger] check(k)) is None,
    {
        if let Err(message) = check_profile(profiles, i) {
            proof {
                faults::first_fault_found(0, i as int, profiles@.len() as int, check);
            }
            return Err(message);
        }
    }
    proof {
        faults::first_fault_none(0, profiles@.len() as int, check);
    }
    Ok(())
}

/// Checks the shape of the shell section of a document.
pub fn validate_shell_shape(document: &TomlNode) -> (r: Result<(), String>)
    ensures
        faults::reports(r, shell_shape_fault(document.view())),
{
    let root = match document {
        TomlNode::Table(root) => root,
        _ => {
            return Ok(());
        },
    };
    proof {
        table_view_is(*root);
    }
    let shell = match lookup(root, "shell") {
        None => {
            return Ok(());
        },
        Some(TomlNode::Table(shell)) => shell,
        Some(_) => {
            return Err("shell must be a table".to_owned());
        },
    };
    proof {
        table_view_is(*shell);
    }
    validate_optional_toml_string(shell, "default_profile", "shell.default_profile")?;
    validate_optional_toml_string(shell, "dialect", "shell.dialect")?;
    match lookup(shell, "profiles") {
        None => Ok(()),
        Some(TomlNode::Table(profiles)) => {
            proof {
                table_view_is(*profiles);
            }
            check_profiles(profiles)
        },
        Some(_) => Err("shell.profiles must be a table".to_owned()),
    }
}

/// Checks that a configuration text is TOML whose shell section has the right shape.
pub fn validate_shell_profile_toml_shape(content: &str) -> (r: Result<(), String>)
    ensures
        faults::reports(r, toml_shape_fault(content@)),
{
    match parse_toml(content) {
        Ok(value) => {
            let document = shape_of_value(value);
            validate_shell_shape(&document)
        },
        Err(error) => Err(
            "failed to parse config TOML syntax: ".to_owned().concat(error.as_str()),
        ),
    }
}

// ---------------------------------------------------------------------------------------------
// Laws
// ---------------------------------------------------------------------------------------------
/// A setting that is left out or is a text.
pub open spec fn left_out_or_text(table: Seq<(Seq<char>, TomlView)>, field: Seq<char>) -> bool {
    members::value_of(table, field) is None || members::value_of(table, field)->0 is Text
}

/// A shell section is accepted exactly where it is left out, or is a table whose default profile
/// and dialect are texts and whose profiles are tables of texts, with a list of texts as arguments
/// and a map of texts as environment, as far as they are there.
pub proof fn shell_sections_are_accepted_by_their_shape(document: TomlView)
    ensures
        shell_shape_fault(document) is None <==> (document is Table && members::value_of(
            document->Table_0,
            "shell"@,
        ) is Some ==> {
            let shell = members::value_of(document->Table_0, "shell"@)->0;
            let settings = shell->Table_0;
            &&& shell is Table
            &&& left_out_or_text(settings, "default_profile"@)
            &&& left_out_or_text(settings, "dialect"@)
            &&& members::value_of(settings, "profiles"@) is Some ==> {
                let profiles = members::value_of(settings, "profiles"@)->0;
                &&& profiles is Table
                &&& forall|i: int|
                    0 <= i < profiles->Table_0.len() ==> profile_shape_usable(
                        (#[trigger] profiles->Table_0[i]).1,
                    )
            }
        }),
{
    if document is Table && members::value_of(document->Table_0, "shell"@) is Some {
        let shell = members::value_of(document->Table_0, "shell"@)->0;
        if shell is Table && members::value_of(shell->Table_0, "profiles"@) is Some {
            let profiles = members::value_of(shell->Table_0, "profiles"@)->0;
            if profiles is Table {
                let entries = profiles->Table_0;
                let check = profile_shape_faults(entries);
                faults::first_fault_none(0, entries.len() as int, check);
                assert forall|i: int| 0 <= i < entries.len() implies ((#[trigger] check(i)) is None
                    <==> profile_shape_usable(entries[i].1)) by {}
                if faults::first_fault(0, entries.len() as int, check) is None {
                    assert forall|i: int| 0 <= i < entries.len() implies profile_shape_usable(
                        (#[trigger] entries[i]).1,
                    ) by {
                        assert(check(i) is None);
                    }
                }
            }
        }
    }
}

/// A profile that is a table of texts, with a list of texts as arguments and a map of texts as
/// environment, as far as they are there.
pub open spec fn profile_shape_usable(profile: TomlView) -> bool {
    let settings = profile->Table_0;
    &&& profile is Table
    &&& left_out_or_text(settings, "description"@)
    &&& left_out_or_text(settings, "program"@)
    &&& left_out_or_text(settings, "dialect"@)
    &&& left_out_or_text(settings, "init_script"@)
    &&& members::value_of(settings, "args"@) is Some ==> {
        let args = members::value_of(settings, "args"@)->0;
        args is Array && (forall|i: int|
            0 <= i < args->Array_0.len() ==> (#[trigger] args->Array_0[i]) is Text)
    }
    &&& members::value_of(settings, "env"@) is Some ==> {
        let env = members::value_of(settings, "env"@)->0;
        env is Table && (forall|i: int|
            0 <= i < env->Table_0.len() ==> (#[trigger] env->Table_0[i]).1 is Text)
    }
}

/// A content that does not parse is refused with the reason, and one that does by the shape of its
/// shell section alone.
pub proof fn contents_are_refused_by_syntax_or_shape(content: Seq<char>)
    ensures
        parsed_toml(content) is Err ==> toml_shape_fault(content) == Some(
            "failed to parse config TOML syntax: "@ + parsed_toml(content)->Err_0,
        ),
        parsed_toml(content) is Ok ==> toml_shape_fault(content) == shell_shape_fault(
            parsed_toml(content)->Ok_0,
        ),
{
}

} // verus!
