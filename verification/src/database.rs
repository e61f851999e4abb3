//! The databases that can be benchmarked: which container each one needs
//! and which client implementation drives it.

use vstd::prelude::*;
use crate::docker::{chosen_image, start_command, Arguments, DockerContainer, DockerParams};

verus! {

/// The database to benchmark.
#[derive(Clone, Copy, Debug, PartialEq, Eq, Structural)]
pub enum Database {
    /// The in-memory reference store.
    Dry,
    /// A SurrealDB server that already runs.
    Surrealdb,
    /// SurrealDB in a container, on its in-memory engine.
    SurrealdbMemory,
    /// SurrealDB in a container, on RocksDB.
    SurrealdbRocksdb,
    /// SurrealDB in a container, on SpeeDB.
    SurrealdbSpeedb,
    /// MongoDB, for which there is no client.
    Mongodb,
    /// PostgreSQL in a container.
    Postgresql,
}

/// The client implementation that drives a database.
#[derive(Clone, Copy, Debug, PartialEq, Eq, Structural)]
pub enum Backend {
    /// The in-memory reference store.
    Dry,
    /// The SurrealDB client.
    Surrealdb,
    /// The PostgreSQL client.
    Postgresql,
}

/// How the SurrealDB container is started on the storage engine that
/// `engine` names.
pub open spec fn surrealdb_params(engine: &'static str) -> DockerParams {
    DockerParams {
        image: "surrealdb/surrealdb:v1.2.1",
        pre_args: "-p 127.0.0.1:8000:8000",
        post_args: engine,
    }
}

impl Database {
    /// Whether the database can be benchmarked.
    pub open spec fn is_supported(self) -> bool {
        self != Database::Mongodb
    }

    /// How the container of the database is started; nothing for a database
    /// that needs no container.
    pub open spec fn params_of(self) -> Option<DockerParams> {
        match self {
            Database::Dry => None,
            Database::Surrealdb => None,
            Database::SurrealdbMemory => Some(
                surrealdb_params("start --auth --user root --pass root memory"),
            ),
            Database::SurrealdbRocksdb => Some(
                surrealdb_params("start --auth --user root --pass root rocksdb://tmp/sur-bench.db"),
            ),
            Database::SurrealdbSpeedb => Some(
                surrealdb_params("start --auth --user root --pass root speedb://tmp/sur-bench.db"),
            ),
            Database::Mongodb => None,
            Database::Postgresql => Some(
                DockerParams {
                    image: "postgres",
                    pre_args: "-p 127.0.0.1:5432:5432 -e POSTGRES_PASSWORD=postgres",
                    post_args: "",
                },
            ),
        }
    }

    /// The client implementation that drives the database.
    pub open spec fn backend_of(self) -> Backend {
        match self {
            Database::Dry => Backend::Dry,
            Database::Postgresql => Backend::Postgresql,
            _ => Backend::Surrealdb,
        }
    }

    /// Whether the database can be benchmarked.
    pub fn supported(&self) -> (supported: bool)
        ensures
            supported == self.is_supported(),
    {
        match self {
            Database::Mongodb => false,
            _ => true,
        }
    }

    /// How the container of the database is started; nothing for a database
    /// that needs no container.
    pub fn docker_params(&self) -> (params: Option<DockerParams>)
        ensures
            params == self.params_of(),
    {
        let image: &'static str = "surrealdb/surrealdb:v1.2.1";
        let pre_args: &'static str = "-p 127.0.0.1:8000:8000";
        match self {
            Database::Dry => None,
            Database::Surrealdb => None,
            Database::SurrealdbMemory => Some(
                DockerParams {
                    image,
                    pre_args,
                    post_args: "start --auth --user root --pass root memory",
                },
            ),
            Database::SurrealdbRocksdb => Some(
                DockerParams {
                    image,
                    pre_args,
                    post_args: "start --auth --user root --pass root rocksdb://tmp/sur-bench.db",
                },
            ),
            Database::SurrealdbSpeedb => Some(
                DockerParams {
                    image,
                    pre_args,
                    post_args: "start --auth --user root --pass root speedb://tmp/sur-bench.db",
                },
            ),
            Database::Mongodb => None,
            Database::Postgresql => Some(
                DockerParams {
                    image: "postgres",
                    pre_args: "-p 127.0.0.1:5432:5432 -e POSTGRES_PASSWORD=postgres",
                    post_args: "",
                },
            ),
        }
    }

    /// The command line that starts the container of the database, with
    /// `image` in place of the default image where one is named; nothing for
    /// a database that needs no container.
    pub fn start_docker(&self, image: Option<String>) -> (arguments: Option<Arguments>)
        requires
            self.is_supported(),
        ensures
            match self.params_of() {
                Some(p) => arguments.is_some() && arguments.unwrap()@ == start_command(
                    chosen_image(image, p.image@),
                    p.pre_args@,
                    p.post_args@,
                ),
                None => arguments.is_none(),
            },
    {
        match self.docker_params() {
            Some(params) => Some(DockerContainer::start(image, &params)),
            None => None,
        }
    }

    /// The client implementation that a run against the database drives.
    pub fn run(&self) -> (backend: Backend)
        requires
            self.is_supported(),
        ensures
            backend == self.backend_of(),
    {
        match self {
            Database::Dry => Backend::Dry,
            Database::Postgresql => Backend::Postgresql,
            _ => Backend::Surrealdb,
        }
    }
}

} // verus!
