use vstd::prelude::*;
use vstd::string::*;

verus! {

pub const MONGODB_ID: &'static str = "mongodb";

pub const DYNAMODB_ID: &'static str = "dynamodb";

/// The two storage backends.
#[derive(Clone, Copy, Debug, PartialEq, Eq, Structural)]
pub enum BackendKind {
    /// The document database.
    Mongo,
    /// The managed key-value store.
    Dynamo,
}

pub open spec fn backend_id(k: BackendKind) -> Seq<char> {
    match k {
        BackendKind::Mongo => MONGODB_ID@,
        BackendKind::Dynamo => DYNAMODB_ID@,
    }
}

impl BackendKind {
    /// The short identifier by which callers select the backend.
    pub fn id(&self) -> (r: &'static str)
        ensures
            r@ == backend_id(*self),
    {
        match self {
            BackendKind::Mongo => MONGODB_ID,
            BackendKind::Dynamo => DYNAMODB_ID,
        }
    }

    /// The backend that a short identifier selects, if any.
    pub fn from_id(id: &str) -> (r: Option<BackendKind>)
        ensures
            match r {
                Some(k) => backend_id(k) == id@,
                None => id@ != MONGODB_ID@ && id@ != DYNAMODB_ID@,
            },
    {
        let s = String::from_str(id);
        if s == String::from_str(MONGODB_ID) {
            Some(BackendKind::Mongo)
        } else if s == String::from_str(DYNAMODB_ID) {
            Some(BackendKind::Dynamo)
        } else {
            None
        }
    }
}

/// Connection parameters of the document database: a connection URI and the
/// name of the logical database.
#[derive(Clone, Debug)]
pub struct MdbConnectionFactory {
    pub uri: String,
    pub db_name: String,
}

impl MdbConnectionFactory {
    pub fn new(uri: &str, db_name: &str) -> (r: MdbConnectionFactory)
        ensures
            r.uri@ == uri@,
            r.db_name@ == db_name@,
    {
        MdbConnectionFactory { uri: uri.to_owned(), db_name: db_name.to_owned() }
    }

    pub fn id(&self) -> (r: &'static str)
        ensures
            r@ == MONGODB_ID@,
    {
        MONGODB_ID
    }
}

/// Connection parameters of the key-value store: an access key pair and an
/// optional endpoint that replaces the service's own (for local emulation).
#[derive(Clone, Debug)]
pub struct DynamoDbConnectionFactory {
    pub endpoint_url: Option<String>,
    pub access_key_id: String,
    pub access_key_secret: String,
}

impl DynamoDbConnectionFactory {
    pub fn new(access_key_id: &str, access_key_secret: &str, endpoint_url: Option<String>) -> (r:
        DynamoDbConnectionFactory)
        ensures
            r.access_key_id@ == access_key_id@,
            r.access_key_secret@ == access_key_secret@,
            r.endpoint_url == endpoint_url,
    {
        DynamoDbConnectionFactory {
            access_key_id: access_key_id.to_owned(),
            access_key_secret: access_key_secret.to_owned(),
            endpoint_url,
        }
    }

    pub fn id(&self) -> (r: &'static str)
        ensures
            r@ == DYNAMODB_ID@,
    {
        DYNAMODB_ID
    }
}

/// The connection parameters of one backend.
#[derive(Clone, Debug)]
pub enum BackendConfig {
    Mongo(MdbConnectionFactory),
    Dynamo(DynamoDbConnectionFactory),
}

impl BackendConfig {
    pub open spec fn kind_spec(&self) -> BackendKind {
        match self {
            BackendConfig::Mongo(_) => BackendKind::Mongo,
            BackendConfig::Dynamo(_) => BackendKind::Dynamo,
        }
    }

    pub fn kind(&self) -> (r: BackendKind)
        ensures
            r == self.kind_spec(),
    {
        match self {
            BackendConfig::Mongo(_) => BackendKind::Mongo,
            BackendConfig::Dynamo(_) => BackendKind::Dynamo,
        }
    }
}

/// The configuration object, built once at start-up, from which repository
/// connections are made: at most one set of parameters per backend.
#[derive(Clone, Debug)]
pub struct DbConnectionFactoryManager {
    pub mongo: Option<MdbConnectionFactory>,
    pub dynamo: Option<DynamoDbConnectionFactory>,
}

impl DbConnectionFactoryManager {
    pub fn new() -> (r: DbConnectionFactoryManager)
        ensures
            r.mongo is None,
            r.dynamo is None,
    {
        DbConnectionFactoryManager { mongo: None, dynamo: None }
    }

    /// Registers a backend's parameters under its identifier; parameters
    /// registered before for the same backend are replaced, the other
    /// backend's are kept.
    pub fn register_factory(&mut self, factory: BackendConfig)
        ensures
            match factory {
                BackendConfig::Mongo(m) => final(self).mongo == Some(m) && final(self).dynamo == old(self).dynamo,
                BackendConfig::Dynamo(d) => final(self).dynamo == Some(d) && final(self).mongo == old(self).mongo,
            },
    {
        match factory {
            BackendConfig::Mongo(m) => {
                self.mongo = Some(m);
            },
            BackendConfig::Dynamo(d) => {
                self.dynamo = Some(d);
            },
        }
    }

    /// The backend that an identifier selects, if its parameters are registered.
    pub fn select(&self, id: &str) -> (r: Option<BackendKind>)
        ensures
            match r {
                Some(k) => backend_id(k) == id@ && (match k {
                    BackendKind::Mongo => self.mongo is Some,
                    BackendKind::Dynamo => self.dynamo is Some,
                }),
                None => (id@ == MONGODB_ID@ ==> self.mongo is None) && (id@ == DYNAMODB_ID@
                    ==> self.dynamo is None),
            },
    {
        proof {
            reveal_strlit("mongodb");
            reveal_strlit("dynamodb");
            assert(MONGODB_ID@[0] != DYNAMODB_ID@[0]);
        }
        match BackendKind::from_id(id) {
            Some(BackendKind::Mongo) => if self.mongo.is_some() {
                Some(BackendKind::Mongo)
            } else {
                None
            },
            Some(BackendKind::Dynamo) => if self.dynamo.is_some() {
                Some(BackendKind::Dynamo)
            } else {
                None
            },
            None => None,
        }
    }
}

} // verus!
