//! The settings: which databases exist and which one opens at start.

use crate::ui::theme::{Theme, ThemeView};
use vstd::prelude::*;
use vstd::string::*;

verus! {

/// Name of the database that a fresh installation starts with.
pub const DEFAULT_DB_NAME: &'static str = "dojo";

/// File name of the database that a fresh installation starts with.
pub const DEFAULT_DB_FILE: &'static str = "judo.db";

/// One database: the name shown to the user and where to reach it.
#[derive(Debug)]
pub struct DBConfig {
    pub name: String,
    pub connection_str: String,
}

/// The settings as a whole.
#[derive(Debug)]
pub struct Config {
    /// Name of the database opened at start.
    pub default: String,
    /// The known databases, in the order shown.
    pub dbs: Vec<DBConfig>,
    /// Colours, where the user chose any.
    pub theme: Option<Theme>,
}

/// Why the settings name no usable default database.
#[derive(Debug)]
pub enum ConfigError {
    /// No database has the default name.
    DefaultNotFound { name: String },
    /// Several databases have the default name.
    MultipleDefaults { name: String },
}

/// A [`DBConfig`] as a mathematical value.
pub struct DBConfigView {
    pub name: Seq<char>,
    pub connection_str: Seq<char>,
}

/// A [`Config`] as a mathematical value.
pub struct ConfigView {
    pub default: Seq<char>,
    pub dbs: Seq<DBConfigView>,
    pub theme: Option<ThemeView>,
}

/// A [`ConfigError`] as a mathematical value.
pub enum ConfigErrorView {
    DefaultNotFound { name: Seq<char> },
    MultipleDefaults { name: Seq<char> },
}

impl View for DBConfig {
    type V = DBConfigView;

    open spec fn view(&self) -> DBConfigView {
        DBConfigView { name: self.name@, connection_str: self.connection_str@ }
    }
}

impl View for Config {
    type V = ConfigView;

    open spec fn view(&self) -> ConfigView {
        ConfigView {
            default: self.default@,
            dbs: self.dbs@.map_values(|db: DBConfig| db@),
            theme: match self.theme {
                Some(theme) => Some(theme@),
                None => None,
            },
        }
    }
}

impl View for ConfigError {
    type V = ConfigErrorView;

    open spec fn view(&self) -> ConfigErrorView {
        match self {
            ConfigError::DefaultNotFound { name } => ConfigErrorView::DefaultNotFound {
                name: name@,
            },
            ConfigError::MultipleDefaults { name } => ConfigErrorView::MultipleDefaults {
                name: name@,
            },
        }
    }
}

impl ConfigErrorView {
    /// The error in words.
    pub open spec fn message(self) -> Seq<char> {
        match self {
            ConfigErrorView::DefaultNotFound { name } => "Default database '"@ + name
                + "' not found"@,
            ConfigErrorView::MultipleDefaults { name } => "Multiple databases with name '"@ + name
                + "' found"@,
        }
    }
}

impl ConfigView {
    /// How many of the first `n` databases have the name `name`.
    pub open spec fn count_named(self, name: Seq<char>, n: int) -> nat
        decreases n,
    {
        if n <= 0 {
            0
        } else {
            self.count_named(name, n - 1) + if self.dbs[n - 1].name == name {
                1nat
            } else {
                0nat
            }
        }
    }

    /// The index of the first database called `name`, if there is one.
    pub open spec fn position(self, name: Seq<char>) -> Option<usize> {
        if exists|i: int| 0 <= i < self.dbs.len() && self.dbs[i].name == name {
            let i = choose|i: int|
                0 <= i < self.dbs.len() && self.dbs[i].name == name && forall|j: int|
                    0 <= j < i ==> self.dbs[j].name != name;
            Some(i as usize)
        } else {
            None
        }
    }

    /// The settings with the database at `index` made the default one;
    /// unchanged where no database stands at `index`.
    pub open spec fn with_default_at(self, index: int) -> ConfigView {
        if 0 <= index < self.dbs.len() {
            ConfigView { default: self.dbs[index].name, dbs: self.dbs, theme: self.theme }
        } else {
            self
        }
    }

    /// The settings with one more database at the end, which also becomes
    /// the default one where `set_as_default` says so.
    pub open spec fn with_added(self, db: DBConfigView, set_as_default: bool) -> ConfigView {
        ConfigView {
            default: if set_as_default {
                db.name
            } else {
                self.default
            },
            dbs: self.dbs.push(db),
            theme: self.theme,
        }
    }

    /// The settings without the database at `index`. Where that one was the
    /// default, the first of those left takes its place, and where none is
    /// left the default name is empty. Unchanged where no database stands
    /// at `index`.
    pub open spec fn without(self, index: int) -> ConfigView {
        if 0 <= index < self.dbs.len() {
            let rest = self.dbs.remove(index);
            ConfigView {
                default: if self.default != self.dbs[index].name {
                    self.default
                } else if rest.len() > 0 {
                    rest[0].name
                } else {
                    Seq::empty()
                },
                dbs: rest,
                theme: self.theme,
            }
        } else {
            self
        }
    }

    /// The settings with the database at `index` renamed to `name`; where
    /// it was the default one, the default follows the new name. Unchanged
    /// where no database stands at `index`.
    pub open spec fn renamed(self, index: int, name: Seq<char>) -> ConfigView {
        if 0 <= index < self.dbs.len() {
            ConfigView {
                default: if self.default == self.dbs[index].name {
                    name
                } else {
                    self.default
                },
                dbs: self.dbs.update(
                    index,
                    DBConfigView { name, connection_str: self.dbs[index].connection_str },
                ),
                theme: self.theme,
            }
        } else {
            self
        }
    }
}

impl Clone for DBConfig {
    fn clone(&self) -> (copy: Self)
        ensures
            copy@ == self@,
    {
        DBConfig { name: self.name.clone(), connection_str: self.connection_str.clone() }
    }
}

impl Clone for Config {
    fn clone(&self) -> (copy: Self)
        ensures
            copy@ == self@,
    {
        let mut dbs: Vec<DBConfig> = Vec::new();
        let mut i: usize = 0;
        while i < self.dbs.len()
            invariant
                i <= self.dbs.len(),
                dbs.len() == i,
                forall|j: int| 0 <= j < i ==> dbs[j]@ == self.dbs[j]@,
            decreases self.dbs.len() - i,
        {
            dbs.push(self.dbs[i].clone());
            i += 1;
        }
        let theme = match &self.theme {
            Some(theme) => Some(theme.clone()),
            None => None,
        };
        let copy = Config { default: self.default.clone(), dbs, theme };
        assert(copy@.dbs =~= self@.dbs);
        copy
    }
}

impl ConfigError {
    /// The error in words.
    pub fn message(&self) -> (text: String)
        ensures
            text@ == self@.message(),
    {
        match self {
            ConfigError::DefaultNotFound { name } => {
                let mut text = String::from_str("Default database '");
                text.append(name.as_str());
                text.append("' not found");
                text
            },
            ConfigError::MultipleDefaults { name } => {
                let mut text = String::from_str("Multiple databases with name '");
                text.append(name.as_str());
                text.append("' found");
                text
            },
        }
    }
}

impl DBConfig {
    /// A SQLite database called `name`, kept in the file at `path`.
    pub fn sqlite(name: String, path: &str) -> (db: DBConfig)
        ensures
            db@ == (DBConfigView { name: name@, connection_str: "sqlite:"@ + path@ }),
    {
        let mut connection_str = String::from_str("sqlite:");
        connection_str.append(path);
        DBConfig { name, connection_str }
    }

    /// The file name under which the database called `name` is kept.
    pub fn file_name(name: &str) -> (file: String)
        ensures
            file@ == name@ + ".db"@,
    {
        let mut file = String::from_str(name);
        file.append(".db");
        file
    }
}

impl Config {
    /// The settings of a fresh installation: the one database of the
    /// default name, which is also the default, and the built-in colours.
    pub fn initial(db_path: &str) -> (config: Config)
        ensures
            config@ == (ConfigView {
                default: DEFAULT_DB_NAME@,
                dbs: seq![
                    DBConfigView { name: DEFAULT_DB_NAME@, connection_str: "sqlite:"@ + db_path@ },
                ],
                theme: Some(ThemeView::standard()),
            }),
    {
        let db = DBConfig::sqlite(String::from_str(DEFAULT_DB_NAME), db_path);
        let mut dbs: Vec<DBConfig> = Vec::new();
        dbs.push(db);
        let config = Config {
            default: String::from_str(DEFAULT_DB_NAME),
            dbs,
            theme: Some(Theme::default()),
        };
        assert(config@.dbs =~= seq![db@]);
        config
    }

    /// The database that opens at start: the one whose name is the default
    /// name, provided that exactly one has it.
    pub fn get_default(&self) -> (result: Result<DBConfig, ConfigError>)
        ensures
            match result {
                Ok(db) => {
                    &&& self@.count_named(self@.default, self@.dbs.len() as int) == 1
                    &&& self@.position(self@.default) matches Some(i)
                    &&& db@ == self@.dbs[i as int]
                    &&& db@.name == self@.default
                },
                Err(ConfigError::DefaultNotFound { name }) => {
                    &&& self@.count_named(self@.default, self@.dbs.len() as int) == 0
                    &&& name@ == self@.default
                },
                Err(ConfigError::MultipleDefaults { name }) => {
                    &&& self@.count_named(self@.default, self@.dbs.len() as int) >= 2
                    &&& name@ == self@.default
                },
            },
    {
        let mut count: usize = 0;
        let mut first: usize = 0;
        let mut i: usize = 0;
        while i < self.dbs.len()
            invariant
                i <= self.dbs.len(),
                count <= i,
                count as nat == self@.count_named(self@.default, i as int),
                count > 0 ==> first < i && self@.dbs[first as int].name == self@.default,
                count > 0 ==> forall|j: int| 0 <= j < first ==> self@.dbs[j].name != self@.default,
                count == 0 ==> forall|j: int| 0 <= j < i ==> self@.dbs[j].name != self@.default,
            decreases self.dbs.len() - i,
        {
            if self.dbs[i].name == self.default {
                if count == 0 {
                    first = i;
                }
                count += 1;
            }
            i += 1;
        }
        if count == 0 {
            Err(ConfigError::DefaultNotFound { name: self.default.clone() })
        } else if count == 1 {
            proof {
                self@.lemma_position(self@.default, first as int);
            }
            Ok(self.dbs[first].clone())
        } else {
            Err(ConfigError::MultipleDefaults { name: self.default.clone() })
        }
    }

    /// The index of the first database called `name`.
    pub fn position(&self, name: &String) -> (index: Option<usize>)
        ensures
            index == self@.position(name@),
            index matches Some(i) ==> i < self.dbs.len() && self@.dbs[i as int].name == name@,
            index is None ==> forall|j: int| 0 <= j < self.dbs.len() ==> self@.dbs[j].name != name@,
    {
        let mut i: usize = 0;
        while i < self.dbs.len()
            invariant
                i <= self.dbs.len(),
                forall|j: int| 0 <= j < i ==> self@.dbs[j].name != name@,
            decreases self.dbs.len() - i,
        {
            if self.dbs[i].name == *name {
                proof {
                    self@.lemma_position(name@, i as int);
                }
                return Some(i);
            }
            i += 1;
        }
        None
    }

    /// Makes the database at `index` the default one. Does nothing where no
    /// database stands at `index`.
    pub fn make_default(&mut self, index: usize)
        ensures
            final(self)@ == old(self)@.with_default_at(index as int),
    {
        if index < self.dbs.len() {
            self.default = self.dbs[index].name.clone();
        }
    }

    /// Adds a database at the end, and makes it the default one where
    /// `set_as_default` says so.
    pub fn add_db(&mut self, db: DBConfig, set_as_default: bool)
        ensures
            final(self)@ == old(self)@.with_added(db@, set_as_default),
    {
        if set_as_default {
            self.default = db.name.clone();
        }
        self.dbs.push(db);
        assert(self@.dbs =~= old(self)@.dbs.push(db@));
    }

    /// Removes the database at `index` and keeps the default name
    /// meaningful. Does nothing where no database stands at `index`.
    pub fn remove_db(&mut self, index: usize)
        ensures
            final(self)@ == old(self)@.without(index as int),
    {
        if index < self.dbs.len() {
            let removed = self.dbs.remove(index);
            assert(self@.dbs =~= old(self)@.dbs.remove(index as int));
            if self.default == removed.name {
                self.default = if self.dbs.len() > 0 {
                    self.dbs[0].name.clone()
                } else {
                    String::new()
                };
            }
        }
    }

    /// Renames the database at `index`; the default name follows where it
    /// meant that database. Does nothing where no database stands at
    /// `index`.
    pub fn rename_db(&mut self, index: usize, name: String)
        ensures
            final(self)@ == old(self)@.renamed(index as int, name@),
    {
        if index < self.dbs.len() {
            if self.default == self.dbs[index].name {
                self.default = name.clone();
            }
            let connection_str = self.dbs[index].connection_str.clone();
            self.dbs.set(index, DBConfig { name, connection_str });
            assert(self@.dbs =~= old(self)@.dbs.update(
                index as int,
                DBConfigView { name: name@, connection_str: old(self)@.dbs[index as int].connection_str },
            ));
        }
    }
}

impl ConfigView {
    /// A database called `name` before which none is called so is the one
    /// that `position` finds.
    pub proof fn lemma_position(self, name: Seq<char>, i: int)
        requires
            0 <= i < self.dbs.len(),
            i <= usize::MAX,
            self.dbs[i].name == name,
            forall|j: int| 0 <= j < i ==> self.dbs[j].name != name,
        ensures
            self.position(name) == Some(i as usize),
    {
        let k = choose|k: int|
            0 <= k < self.dbs.len() && self.dbs[k].name == name && forall|j: int|
                0 <= j < k ==> self.dbs[j].name != name;
        assert(k == i);
    }
}

} // verus!
