//! A client-side schema adapter for Baserow tables.
//!
//! The crate translates between the numeric field identifiers that the
//! service uses and the field names that callers write, builds the requests
//! for row queries and single-row operations, and shapes the decoded
//! responses. It performs no I/O: every operation is split into a function
//! that describes the request to send and a function that takes what came
//! back.

use crate::api::authentication::User;
use crate::error::ConfigurationError;
use crate::mapper::{FieldMapper, TableMapper};
use crate::text::{clone_text, text_of};
use vstd::prelude::*;
use vstd::string::StringExecFns;

pub mod api;
pub mod error;
pub mod filter;
pub mod json;
pub mod mapper;
pub mod record;
pub mod text;

verus! {

/// The description of one column of a table, as the service reports it.
#[derive(Debug)]
pub struct TableField {
    /// The identifier that the service assigned; it never changes.
    pub id: u64,
    /// The table that the field belongs to.
    pub table_id: u64,
    /// The name shown to users; it may change.
    pub name: String,
    /// The position at which the field is displayed.
    pub order: u32,
    /// The tag of the field's type, such as `text`, `number` or `boolean`.
    pub field_type: String,
    /// Whether this is the table's primary field.
    pub primary: bool,
    /// Whether the service computes the field's value.
    pub read_only: bool,
    /// A free-form description.
    pub description: Option<String>,
}

impl Clone for TableField {
    fn clone(&self) -> (copy: Self)
        ensures
            copy == *self,
    {
        TableField {
            id: self.id,
            table_id: self.table_id,
            name: self.name.clone(),
            order: self.order,
            field_type: self.field_type.clone(),
            primary: self.primary,
            read_only: self.read_only,
            description: match &self.description {
                Some(text) => Some(text.clone()),
                None => None,
            },
        }
    }
}

/// The direction of a sort.
#[derive(Debug, Clone, Copy, PartialEq, Eq, Structural)]
pub enum OrderDirection {
    /// Smallest first.
    Asc,
    /// Largest first.
    Desc,
}

/// What a client needs to know to address the service: where it is, and the
/// credentials to present.
#[derive(Debug)]
pub struct Configuration {
    /// The URL that every path is appended to.
    pub base_url: String,
    /// The e-mail address to log in with.
    pub email: Option<String>,
    /// The password to log in with.
    pub password: Option<String>,
    /// A session token; where present it is the credential that is sent.
    pub jwt: Option<String>,
    /// A database token, sent where there is no session token.
    pub database_token: Option<String>,
    /// The access token of the last login.
    pub access_token: Option<String>,
    /// The refresh token of the last login.
    pub refresh_token: Option<String>,
    /// The user of the last login.
    pub user: Option<User>,
}

impl Clone for Configuration {
    fn clone(&self) -> (copy: Self)
        ensures
            copy == *self,
    {
        Configuration {
            base_url: self.base_url.clone(),
            email: clone_text(&self.email),
            password: clone_text(&self.password),
            jwt: clone_text(&self.jwt),
            database_token: clone_text(&self.database_token),
            access_token: clone_text(&self.access_token),
            refresh_token: clone_text(&self.refresh_token),
            user: match &self.user {
                Some(user) => Some(user.clone()),
                None => None,
            },
        }
    }
}

/// Collects the settings of a `Configuration` step by step.
#[derive(Debug)]
pub struct ConfigBuilder {
    /// The base URL, once given.
    pub base_url: Option<String>,
    /// The database token, once given.
    pub api_key: Option<String>,
    /// The e-mail address, once given.
    pub email: Option<String>,
    /// The password, once given.
    pub password: Option<String>,
}

impl ConfigBuilder {
    /// A builder with nothing set.
    pub fn new() -> (builder: Self)
        ensures
            builder.base_url is None,
            builder.api_key is None,
            builder.email is None,
            builder.password is None,
    {
        ConfigBuilder { base_url: None, api_key: None, email: None, password: None }
    }

    /// Sets the base URL.
    pub fn base_url(self, base_url: &str) -> (builder: Self)
        ensures
            text_of(builder.base_url) == Some(base_url@),
            builder.api_key == self.api_key,
            builder.email == self.email,
            builder.password == self.password,
    {
        ConfigBuilder {
            base_url: Some(String::from_str(base_url)),
            api_key: self.api_key,
            email: self.email,
            password: self.password,
        }
    }

    /// Sets the database token.
    pub fn api_key(self, api_key: &str) -> (builder: Self)
        ensures
            builder.base_url == self.base_url,
            text_of(builder.api_key) == Some(api_key@),
            builder.email == self.email,
            builder.password == self.password,
    {
        ConfigBuilder {
            base_url: self.base_url,
            api_key: Some(String::from_str(api_key)),
            email: self.email,
            password: self.password,
        }
    }

    /// Sets the e-mail address to log in with.
    pub fn email(self, email: &str) -> (builder: Self)
        ensures
            builder.base_url == self.base_url,
            builder.api_key == self.api_key,
            text_of(builder.email) == Some(email@),
            builder.password == self.password,
    {
        ConfigBuilder {
            base_url: self.base_url,
            api_key: self.api_key,
            email: Some(String::from_str(email)),
            password: self.password,
        }
    }

    /// Sets the password to log in with.
    pub fn password(self, password: &str) -> (builder: Self)
        ensures
            builder.base_url == self.base_url,
            builder.api_key == self.api_key,
            builder.email == self.email,
            text_of(builder.password) == Some(password@),
    {
        ConfigBuilder {
            base_url: self.base_url,
            api_key: self.api_key,
            email: self.email,
            password: Some(String::from_str(password)),
        }
    }

    /// The configuration with what was set, or the error that says what is
    /// missing: without a base URL no configuration is made. The database
    /// token is the API key, and no login has taken place yet.
    pub fn try_build(self) -> (outcome: Result<Configuration, ConfigurationError>)
        ensures
            self.base_url is None ==> outcome == Err::<Configuration, ConfigurationError>(
                ConfigurationError::MissingBaseUrl,
            ),
            self.base_url is Some ==> outcome == Ok::<Configuration, ConfigurationError>(
                Configuration {
                    base_url: self.base_url->0,
                    email: self.email,
                    password: self.password,
                    jwt: None,
                    database_token: self.api_key,
                    access_token: None,
                    refresh_token: None,
                    user: None,
                },
            ),
    {
        if self.base_url.is_some() {
            Ok(self.build())
        } else {
            Err(ConfigurationError::MissingBaseUrl)
        }
    }

    /// The configuration with what was set. A base URL must have been given;
    /// the database token is the API key, and no login has taken place yet.
    pub fn build(self) -> (configuration: Configuration)
        requires
            self.base_url is Some,
        ensures
            configuration.base_url == self.base_url->0,
            configuration.email == self.email,
            configuration.password == self.password,
            configuration.jwt is None,
            configuration.database_token == self.api_key,
            configuration.access_token is None,
            configuration.refresh_token is None,
            configuration.user is None,
    {
        Configuration {
            base_url: self.base_url.unwrap(),
            email: self.email,
            password: self.password,
            jwt: None,
            database_token: self.api_key,
            access_token: None,
            refresh_token: None,
            user: None,
        }
    }
}

/// A client of the service: a configuration from which requests are
/// described. Sending them is left to the caller.
#[derive(Debug)]
pub struct Baserow {
    /// The configuration that requests are described from.
    pub configuration: Configuration,
}

impl Clone for Baserow {
    fn clone(&self) -> (copy: Self)
        ensures
            copy == *self,
    {
        Baserow { configuration: self.configuration.clone() }
    }
}

impl Baserow {
    /// A client with the given configuration.
    pub fn with_configuration(configuration: Configuration) -> (client: Self)
        ensures
            client.configuration == configuration,
    {
        Baserow { configuration }
    }

    /// This client with `token` as its database token.
    pub fn with_database_token(self, token: String) -> (client: Self)
        ensures
            client.configuration == (Configuration {
                database_token: Some(token),
                ..self.configuration
            }),
    {
        let mut configuration = self.configuration;
        configuration.database_token = Some(token);
        Baserow { configuration }
    }

    /// A copy of this client with `access_token` as its access token.
    pub fn with_access_token(&self, access_token: String) -> (client: Self)
        ensures
            client.configuration == (Configuration {
                access_token: Some(access_token),
                ..self.configuration
            }),
    {
        let mut configuration = self.configuration.clone();
        configuration.access_token = Some(access_token);
        Baserow { configuration }
    }

    /// A copy of this client with `refresh_token` as its refresh token.
    pub fn with_refresh_token(&self, refresh_token: String) -> (client: Self)
        ensures
            client.configuration == (Configuration {
                refresh_token: Some(refresh_token),
                ..self.configuration
            }),
    {
        let mut configuration = self.configuration.clone();
        configuration.refresh_token = Some(refresh_token);
        Baserow { configuration }
    }

    /// A copy of this client with `user` as its logged-in user.
    pub fn with_user(&self, user: User) -> (client: Self)
        ensures
            client.configuration == (Configuration { user: Some(user), ..self.configuration }),
    {
        let mut configuration = self.configuration.clone();
        configuration.user = Some(user);
        Baserow { configuration }
    }

    /// A copy of the configuration.
    pub fn get_configuration(&self) -> (configuration: Configuration)
        ensures
            configuration == self.configuration,
    {
        self.configuration.clone()
    }

    /// A handle for the table `id`, not yet mapped, that refers to this client.
    pub fn table_by_id(&self, id: u64) -> (table: BaserowTable)
        ensures
            table.baserow == Some(*self),
            table.mapper is None,
            table.id == Some(id),
            table.name is None,
            table.order is None,
            table.database_id is None,
    {
        BaserowTable::default().with_id(id).with_baserow(self.clone())
    }
}

/// A handle for one table. It starts unmapped; schema discovery attaches a
/// registry of the table's fields, and from then on the handle stays mapped.
#[derive(Debug)]
pub struct BaserowTable {
    /// The client that requests are described from.
    pub baserow: Option<Baserow>,
    /// The registry of the table's fields, once discovered.
    pub mapper: Option<TableMapper>,
    /// The table's identifier.
    pub id: Option<u64>,
    /// The table's name.
    pub name: Option<String>,
    /// The table's position among the tables of its database.
    pub order: Option<i64>,
    /// The database that the table belongs to.
    pub database_id: Option<i64>,
}

impl Default for BaserowTable {
    fn default() -> (table: Self)
        ensures
            table.baserow is None,
            table.mapper is None,
            table.id is None,
            table.name is None,
            table.order is None,
            table.database_id is None,
    {
        BaserowTable {
            baserow: None,
            mapper: None,
            id: None,
            name: None,
            order: None,
            database_id: None,
        }
    }
}

impl Clone for BaserowTable {
    fn clone(&self) -> (copy: Self)
        ensures
            copy.baserow == self.baserow,
            copy.fields() == self.fields(),
            copy.id == self.id,
            copy.name == self.name,
            copy.order == self.order,
            copy.database_id == self.database_id,
    {
        BaserowTable {
            baserow: match &self.baserow {
                Some(baserow) => Some(baserow.clone()),
                None => None,
            },
            mapper: match &self.mapper {
                Some(mapper) => Some(mapper.clone()),
                None => None,
            },
            id: self.id,
            name: clone_text(&self.name),
            order: self.order,
            database_id: self.database_id,
        }
    }
}

impl BaserowTable {
    /// The fields of the registry, if the handle is mapped.
    pub open spec fn fields(&self) -> Option<Seq<TableField>> {
        match self.mapper {
            Some(mapper) => Some(mapper.mapped_fields()),
            None => None,
        }
    }

    /// This handle, referring to the client `baserow`.
    pub fn with_baserow(self, baserow: Baserow) -> (table: BaserowTable)
        ensures
            table.baserow == Some(baserow),
            table.mapper == self.mapper,
            table.id == self.id,
            table.name == self.name,
            table.order == self.order,
            table.database_id == self.database_id,
    {
        let mut table = self;
        table.baserow = Some(baserow);
        table
    }

    /// This handle, for the table `id`.
    pub fn with_id(self, id: u64) -> (table: BaserowTable)
        ensures
            table.baserow == self.baserow,
            table.mapper == self.mapper,
            table.id == Some(id),
            table.name == self.name,
            table.order == self.order,
            table.database_id == self.database_id,
    {
        let mut table = self;
        table.id = Some(id);
        table
    }

    /// Whether a registry is attached.
    pub fn is_mapped(&self) -> (mapped: bool)
        ensures
            mapped == (self.mapper is Some),
    {
        self.mapper.is_some()
    }
}

} // verus!
