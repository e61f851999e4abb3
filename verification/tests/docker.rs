use bench_engine::database::{Backend, Database};
use bench_engine::docker::{split_words, Arguments, DockerContainer, DockerParams};

fn strings(words: &[&str]) -> Vec<String> {
    words.iter().map(|word| String::from(*word)).collect()
}

#[test]
fn split_words_drops_every_space() {
    assert_eq!(split_words(""), strings(&[]));
    assert_eq!(split_words(" "), strings(&[]));
    assert_eq!(split_words("   "), strings(&[]));
    assert_eq!(split_words("a"), strings(&["a"]));
    assert_eq!(split_words(" a"), strings(&["a"]));
    assert_eq!(split_words("a "), strings(&["a"]));
    assert_eq!(split_words("a b"), strings(&["a", "b"]));
    assert_eq!(split_words("  ab   cd  e "), strings(&["ab", "cd", "e"]));
}

#[test]
fn split_words_splits_at_spaces_only() {
    assert_eq!(split_words("a\tb\nc"), strings(&["a\tb\nc"]));
    assert_eq!(split_words("é ü"), strings(&["é", "ü"]));
    assert_eq!(
        split_words("-p 127.0.0.1:5432:5432 -e POSTGRES_PASSWORD=postgres"),
        strings(&["-p", "127.0.0.1:5432:5432", "-e", "POSTGRES_PASSWORD=postgres"])
    );
}

#[test]
fn arguments_new_keeps_the_arguments() {
    assert_eq!(Arguments::new(strings(&[])).as_vec(), &strings(&[]));
    assert_eq!(
        Arguments::new(strings(&["logs", "some id", ""])).as_vec(),
        &strings(&["logs", "some id", ""])
    );
}

#[test]
fn arguments_add_adds_at_the_end() {
    let mut arguments = Arguments::new(strings(&["run"]));
    arguments.add(strings(&["-d", "an image"]));
    arguments.add(strings(&[]));
    arguments.add(strings(&["last"]));
    assert_eq!(arguments.as_vec(), &strings(&["run", "-d", "an image", "last"]));
}

#[test]
fn arguments_append_adds_the_words() {
    let mut arguments = Arguments::new(strings(&["run"]));
    arguments.append("-p  127.0.0.1:8000:8000 ");
    arguments.append("");
    arguments.append("start --auth");
    assert_eq!(
        arguments.as_vec(),
        &strings(&["run", "-p", "127.0.0.1:8000:8000", "start", "--auth"])
    );
}

#[test]
fn start_uses_the_default_image() {
    let params = DockerParams { image: "postgres", pre_args: "-p 1:2 -e A=B", post_args: "" };
    let arguments = DockerContainer::start(None, &params);
    assert_eq!(arguments.as_vec(), &strings(&["run", "-p", "1:2", "-e", "A=B", "-d", "postgres"]));
}

#[test]
fn start_uses_the_named_image() {
    let params = DockerParams { image: "default", pre_args: "-p 1:2", post_args: "start  memory" };
    let arguments = DockerContainer::start(Some(String::from("mine:v2")), &params);
    assert_eq!(
        arguments.as_vec(),
        &strings(&["run", "-p", "1:2", "-d", "mine:v2", "start", "memory"])
    );
}

#[test]
fn start_keeps_an_image_with_spaces_whole() {
    let params = DockerParams { image: "default", pre_args: "", post_args: "" };
    let arguments = DockerContainer::start(Some(String::from("two words")), &params);
    assert_eq!(arguments.as_vec(), &strings(&["run", "-d", "two words"]));
}

#[test]
fn container_commands_name_the_container() {
    let container = DockerContainer::new(String::from("0123abcd"));
    assert_eq!(container.id(), "0123abcd");
    assert!(container.running());
    assert_eq!(container.logs().as_vec(), &strings(&["logs", "0123abcd"]));
    assert_eq!(container.remove().as_vec(), &strings(&["rm", "0123abcd"]));
}

#[test]
fn container_is_stopped_once() {
    let mut container = DockerContainer::new(String::from("0123abcd"));
    let first = container.stop();
    assert_eq!(first.unwrap().as_vec(), &strings(&["stop", "0123abcd"]));
    assert!(!container.running());
    assert!(container.stop().is_none());
    assert!(container.stop().is_none());
    assert!(!container.running());
    assert_eq!(container.id(), "0123abcd");
    assert_eq!(container.remove().as_vec(), &strings(&["rm", "0123abcd"]));
}

#[test]
fn databases_without_a_container() {
    assert!(Database::Dry.docker_params().is_none());
    assert!(Database::Surrealdb.docker_params().is_none());
    assert!(Database::Mongodb.docker_params().is_none());
    assert!(Database::Dry.start_docker(None).is_none());
    assert!(Database::Surrealdb.start_docker(Some(String::from("ignored"))).is_none());
}

#[test]
fn postgresql_container() {
    let arguments = Database::Postgresql.start_docker(None).unwrap();
    assert_eq!(
        arguments.as_vec(),
        &strings(&[
            "run",
            "-p",
            "127.0.0.1:5432:5432",
            "-e",
            "POSTGRES_PASSWORD=postgres",
            "-d",
            "postgres"
        ])
    );
    let params = Database::Postgresql.docker_params().unwrap();
    assert_eq!(params.image, "postgres");
    assert_eq!(params.post_args, "");
}

#[test]
fn surrealdb_containers() {
    let engines = [
        (Database::SurrealdbMemory, "memory"),
        (Database::SurrealdbRocksdb, "rocksdb://tmp/sur-bench.db"),
        (Database::SurrealdbSpeedb, "speedb://tmp/sur-bench.db"),
    ];
    for (database, engine) in engines {
        let arguments = database.start_docker(None).unwrap();
        assert_eq!(
            arguments.as_vec(),
            &strings(&[
                "run",
                "-p",
                "127.0.0.1:8000:8000",
                "-d",
                "surrealdb/surrealdb:v1.2.1",
                "start",
                "--auth",
                "--user",
                "root",
                "--pass",
                "root",
                engine
            ])
        );
        let named = database.start_docker(Some(String::from("surrealdb/surrealdb:nightly"))).unwrap();
        assert_eq!(named.as_vec()[4], "surrealdb/surrealdb:nightly");
        assert_eq!(named.as_vec().len(), 12);
    }
}

#[test]
fn each_database_has_its_backend() {
    assert_eq!(Database::Dry.run(), Backend::Dry);
    assert_eq!(Database::Surrealdb.run(), Backend::Surrealdb);
    assert_eq!(Database::SurrealdbMemory.run(), Backend::Surrealdb);
    assert_eq!(Database::SurrealdbRocksdb.run(), Backend::Surrealdb);
    assert_eq!(Database::SurrealdbSpeedb.run(), Backend::Surrealdb);
    assert_eq!(Database::Postgresql.run(), Backend::Postgresql);
}

#[test]
fn mongodb_is_not_supported() {
    assert!(!Database::Mongodb.supported());
    for database in [
        Database::Dry,
        Database::Surrealdb,
        Database::SurrealdbMemory,
        Database::SurrealdbRocksdb,
        Database::SurrealdbSpeedb,
        Database::Postgresql,
    ] {
        assert!(database.supported());
    }
}
