//! What the agent tells the model about the workspace it works in.
//!
//! The workspace is looked at by the caller, who reports what it found as a
//! [`WorkspaceProbe`]: the names that exist in the workspace directory and the
//! text of the files that could be read. Everything that is concluded from
//! that is concluded here.
use crate::ai::llm::optional_text;
use crate::json::{json_document, JsonValue};
use crate::text::{
    concat, contains, contains_text, is_substring, join, joined, lines, lines_of, occurs_at,
    replace, replaced, split, split_on, starts_with, str_eq, stripped, texts, trim, trim_matches,
    trimmed, words, words_of, Strip,
};
use vstd::prelude::*;
use vstd::string::*;

verus! {

/// What was found in the workspace directory.
#[derive(Debug)]
pub struct WorkspaceProbe {
    /// The names that exist in the directory, files and directories alike. A
    /// name below a directory of the workspace is given with `/` between its
    /// parts.
    pub entries: Vec<String>,
    /// The files that could be read as text: name and text.
    pub files: Vec<(String, String)>,
    /// What `git branch --show-current` printed, if it ran and succeeded.
    pub git_branch: Option<String>,
}

/// The text of the first file of `files` named `name`.
pub open spec fn file_text(files: Seq<(String, String)>, name: Seq<char>) -> Option<Seq<char>>
    decreases files.len(),
{
    if files.len() == 0 {
        None
    } else if files[0].0@ == name {
        Some(files[0].1@)
    } else {
        file_text(files.skip(1), name)
    }
}

impl WorkspaceProbe {
    /// Whether `name` exists in the workspace.
    pub open spec fn has(self, name: Seq<char>) -> bool {
        texts(self.entries@).contains(name)
    }

    /// The text of the file `name`, if it could be read.
    pub open spec fn text(self, name: Seq<char>) -> Option<Seq<char>> {
        file_text(self.files@, name)
    }

    /// Whether `name` exists in the workspace.
    pub fn contains(&self, name: &str) -> (found: bool)
        ensures
            found == self.has(name@),
    {
        contains_text(&self.entries, name)
    }

    /// The text of the file `name`, if it could be read.
    pub fn read(&self, name: &str) -> (text: Option<&str>)
        ensures
            match text {
                Some(t) => self.text(name@) == Some(t@),
                None => self.text(name@) is None,
            },
    {
        let mut i: usize = 0;
        proof {
            assert(self.files@.skip(0) =~= self.files@);
        }
        while i < self.files.len()
            invariant
                i <= self.files.len(),
                self.text(name@) == file_text(self.files@.skip(i as int), name@),
            decreases self.files.len() - i,
        {
            proof {
                assert(self.files@.skip(i as int).skip(1) =~= self.files@.skip(i + 1));
            }
            if str_eq(self.files[i].0.as_str(), name) {
                return Some(self.files[i].1.as_str());
            }
            i += 1;
        }
        None
    }
}

/// A table of rules, tried in order: what to look for, and what it stands
/// for.
pub open spec fn rows(table: Seq<(&'static str, &'static str)>) -> Seq<(Seq<char>, Seq<char>)> {
    table.map_values(|row: (&'static str, &'static str)| (row.0@, row.1@))
}

/// What the first row of `table` stands for whose name exists in the
/// workspace.
pub open spec fn present_label(probe: WorkspaceProbe, table: Seq<(Seq<char>, Seq<char>)>) -> Option<
    Seq<char>,
>
    decreases table.len(),
{
    if table.len() == 0 {
        None
    } else if probe.has(table[0].0) {
        Some(table[0].1)
    } else {
        present_label(probe, table.skip(1))
    }
}

/// What the first row of `table` stands for whose word occurs in `text`.
pub open spec fn mentioned_label(text: Seq<char>, table: Seq<(Seq<char>, Seq<char>)>) -> Option<
    Seq<char>,
>
    decreases table.len(),
{
    if table.len() == 0 {
        None
    } else if is_substring(text, table[0].0) {
        Some(table[0].1)
    } else {
        mentioned_label(text, table.skip(1))
    }
}

/// What the first row of `table` stands for whose name is a member of the
/// object `object`.
pub open spec fn member_label(object: JsonValue, table: Seq<(Seq<char>, Seq<char>)>) -> Option<
    Seq<char>,
>
    decreases table.len(),
{
    if table.len() == 0 {
        None
    } else if object.member(table[0].0) is Some {
        Some(table[0].1)
    } else {
        member_label(object, table.skip(1))
    }
}

fn first_present(probe: &WorkspaceProbe, table: &Vec<(&'static str, &'static str)>) -> (label:
    Option<String>)
    ensures
        optional_text(label) == present_label(*probe, rows(table@)),
{
    let mut i: usize = 0;
    proof {
        assert(rows(table@).skip(0) =~= rows(table@));
    }
    while i < table.len()
        invariant
            i <= table.len(),
            present_label(*probe, rows(table@)) == present_label(
                *probe,
                rows(table@).skip(i as int),
            ),
        decreases table.len() - i,
    {
        proof {
            assert(rows(table@).skip(i as int).skip(1) =~= rows(table@).skip(i + 1));
        }
        if probe.contains(table[i].0) {
            return Some(String::from_str(table[i].1));
        }
        i += 1;
    }
    None
}

fn first_mentioned(text: &str, table: &Vec<(&'static str, &'static str)>) -> (label: Option<String>)
    ensures
        optional_text(label) == mentioned_label(text@, rows(table@)),
{
    let mut i: usize = 0;
    proof {
        assert(rows(table@).skip(0) =~= rows(table@));
    }
    while i < table.len()
        invariant
            i <= table.len(),
            mentioned_label(text@, rows(table@)) == mentioned_label(
                text@,
                rows(table@).skip(i as int),
            ),
        decreases table.len() - i,
    {
        proof {
            assert(rows(table@).skip(i as int).skip(1) =~= rows(table@).skip(i + 1));
        }
        if contains(text, table[i].0) {
            return Some(String::from_str(table[i].1));
        }
        i += 1;
    }
    None
}

fn first_member(object: &JsonValue, table: &Vec<(&'static str, &'static str)>) -> (label: Option<
    String,
>)
    ensures
        optional_text(label) == member_label(*object, rows(table@)),
{
    let mut i: usize = 0;
    proof {
        assert(rows(table@).skip(0) =~= rows(table@));
    }
    while i < table.len()
        invariant
            i <= table.len(),
            member_label(*object, rows(table@)) == member_label(
                *object,
                rows(table@).skip(i as int),
            ),
        decreases table.len() - i,
    {
        proof {
            assert(rows(table@).skip(i as int).skip(1) =~= rows(table@).skip(i + 1));
        }
        if object.contains_key(table[i].0) {
            return Some(String::from_str(table[i].1));
        }
        i += 1;
    }
    None
}

/// The label, or `fallback` where there is none.
pub open spec fn or_text(label: Option<Seq<char>>, fallback: Seq<char>) -> Option<Seq<char>> {
    match label {
        Some(text) => Some(text),
        None => Some(fallback),
    }
}

fn or_default(label: Option<String>, fallback: &str) -> (r: Option<String>)
    ensures
        optional_text(r) == or_text(optional_text(label), fallback@),
{
    match label {
        Some(text) => Some(text),
        None => Some(String::from_str(fallback)),
    }
}

/// The document in the file `package.json`, if the file could be read and
/// holds one.
pub open spec fn package(probe: WorkspaceProbe) -> Option<JsonValue> {
    match probe.text("package.json"@) {
        Some(text) => json_document(text),
        None => None,
    }
}

/// The packages that a package document depends on: its member
/// `dependencies` if that is an object, else its member `devDependencies` if
/// that is one.
pub open spec fn dependencies_of(document: JsonValue) -> Option<JsonValue> {
    if document.member("dependencies"@) matches Some(JsonValue::Object(_)) {
        document.member("dependencies"@)
    } else if document.member("devDependencies"@) matches Some(JsonValue::Object(_)) {
        document.member("devDependencies"@)
    } else {
        None
    }
}

/// The packages that the workspace depends on, by its `package.json`.
pub open spec fn package_dependencies(probe: WorkspaceProbe) -> Option<JsonValue> {
    match package(probe) {
        Some(document) => dependencies_of(document),
        None => None,
    }
}

/// What the first row of `table` stands for that the workspace depends on, by
/// its `package.json`.
pub open spec fn dependency_label(probe: WorkspaceProbe, table: Seq<(Seq<char>, Seq<char>)>) -> Option<
    Seq<char>,
> {
    match package_dependencies(probe) {
        Some(dependencies) => member_label(dependencies, table),
        None => None,
    }
}

fn read_package(probe: &WorkspaceProbe) -> (document: Option<JsonValue>)
    ensures
        document == package(*probe),
{
    match probe.read("package.json") {
        Some(text) => match JsonValue::parse(text) {
            Ok(document) => Some(document),
            Err(_) => None,
        },
        None => None,
    }
}

fn dependencies(document: &JsonValue) -> (found: Option<&JsonValue>)
    ensures
        match found {
            Some(dependencies) => dependencies_of(*document) == Some(*dependencies),
            None => dependencies_of(*document) is None,
        },
{
    match document.get("dependencies") {
        Some(JsonValue::Object(_)) => document.get("dependencies"),
        _ => match document.get("devDependencies") {
            Some(JsonValue::Object(_)) => document.get("devDependencies"),
            _ => None,
        },
    }
}

fn first_dependency(probe: &WorkspaceProbe, table: &Vec<(&'static str, &'static str)>) -> (label:
    Option<String>)
    ensures
        optional_text(label) == dependency_label(*probe, rows(table@)),
{
    match read_package(probe) {
        Some(document) => match dependencies(&document) {
            Some(found) => first_member(found, table),
            None => None,
        },
        None => None,
    }
}

/// The lock files of the package managers for Node.js, and the manager that each belongs to.
pub open spec fn node_lockfiles() -> Seq<(Seq<char>, Seq<char>)> {
    seq![
        ("bun.lockb"@, "bun"@),
        ("pnpm-lock.yaml"@, "pnpm"@),
        ("yarn.lock"@, "yarn"@),
        ("package-lock.json"@, "npm"@),
    ]
}

fn node_lockfiles_rows() -> (table: Vec<(&'static str, &'static str)>)
    ensures
        rows(table@) == node_lockfiles(),
{
    let table = vec![
        ("bun.lockb", "bun"),
        ("pnpm-lock.yaml", "pnpm"),
        ("yarn.lock", "yarn"),
        ("package-lock.json", "npm"),
    ];
    table
}

/// The packages that show a web framework, and the framework that each shows.
pub open spec fn web_packages() -> Seq<(Seq<char>, Seq<char>)> {
    seq![
        ("next"@, "nextjs"@),
        ("nuxt"@, "nuxt"@),
        ("@nuxt/core"@, "nuxt"@),
        ("remix"@, "remix"@),
        ("@remix-run/react"@, "remix"@),
        ("svelte"@, "svelte"@),
        ("sveltekit"@, "svelte"@),
        ("react"@, "react"@),
        ("vue"@, "vue"@),
        ("@angular/core"@, "angular"@),
    ]
}

fn web_packages_rows() -> (table: Vec<(&'static str, &'static str)>)
    ensures
        rows(table@) == web_packages(),
{
    let table = vec![
        ("next", "nextjs"),
        ("nuxt", "nuxt"),
        ("@nuxt/core", "nuxt"),
        ("remix", "remix"),
        ("@remix-run/react", "remix"),
        ("svelte", "svelte"),
        ("sveltekit", "svelte"),
        ("react", "react"),
        ("vue", "vue"),
        ("@angular/core", "angular"),
    ];
    table
}

/// The packages that show a backend framework for Node.js.
pub open spec fn backend_packages() -> Seq<(Seq<char>, Seq<char>)> {
    seq![
        ("express"@, "express"@),
        ("fastify"@, "fastify"@),
        ("koa"@, "koa"@),
        ("nest"@, "nestjs"@),
        ("@nestjs/core"@, "nestjs"@),
    ]
}

fn backend_packages_rows() -> (table: Vec<(&'static str, &'static str)>)
    ensures
        rows(table@) == backend_packages(),
{
    let table = vec![
        ("express", "express"),
        ("fastify", "fastify"),
        ("koa", "koa"),
        ("nest", "nestjs"),
        ("@nestjs/core", "nestjs"),
    ];
    table
}

/// The words that show a backend framework for Python.
pub open spec fn python_backends() -> Seq<(Seq<char>, Seq<char>)> {
    seq![
        ("django"@, "django"@),
        ("flask"@, "flask"@),
        ("fastapi"@, "fastapi"@),
    ]
}

fn python_backends_rows() -> (table: Vec<(&'static str, &'static str)>)
    ensures
        rows(table@) == python_backends(),
{
    let table = vec![
        ("django", "django"),
        ("flask", "flask"),
        ("fastapi", "fastapi"),
    ];
    table
}

/// The packages that show a build tool.
pub open spec fn build_packages() -> Seq<(Seq<char>, Seq<char>)> {
    seq![
        ("vite"@, "vite"@),
        ("webpack"@, "webpack"@),
        ("rollup"@, "rollup"@),
        ("esbuild"@, "esbuild"@),
    ]
}

fn build_packages_rows() -> (table: Vec<(&'static str, &'static str)>)
    ensures
        rows(table@) == build_packages(),
{
    let table = vec![
        ("vite", "vite"),
        ("webpack", "webpack"),
        ("rollup", "rollup"),
        ("esbuild", "esbuild"),
    ];
    table
}

/// The words in a build script that show a build tool.
pub open spec fn build_commands() -> Seq<(Seq<char>, Seq<char>)> {
    seq![
        ("vite"@, "vite"@),
        ("webpack"@, "webpack"@),
    ]
}

fn build_commands_rows() -> (table: Vec<(&'static str, &'static str)>)
    ensures
        rows(table@) == build_commands(),
{
    let table = vec![
        ("vite", "vite"),
        ("webpack", "webpack"),
    ];
    table
}

/// The packages that show a testing framework for Node.js.
pub open spec fn test_packages() -> Seq<(Seq<char>, Seq<char>)> {
    seq![
        ("vitest"@, "vitest"@),
        ("jest"@, "jest"@),
        ("mocha"@, "mocha"@),
        ("jasmine"@, "jasmine"@),
    ]
}

fn test_packages_rows() -> (table: Vec<(&'static str, &'static str)>)
    ensures
        rows(table@) == test_packages(),
{
    let table = vec![
        ("vitest", "vitest"),
        ("jest", "jest"),
        ("mocha", "mocha"),
        ("jasmine", "jasmine"),
    ];
    table
}

/// The words that show a testing framework for Python.
pub open spec fn python_tests() -> Seq<(Seq<char>, Seq<char>)> {
    seq![
        ("pytest"@, "pytest"@),
        ("unittest"@, "unittest"@),
    ]
}

fn python_tests_rows() -> (table: Vec<(&'static str, &'static str)>)
    ensures
        rows(table@) == python_tests(),
{
    let table = vec![
        ("pytest", "pytest"),
        ("unittest", "unittest"),
    ];
    table
}

/// The files that show a linter.
pub open spec fn linter_files() -> Seq<(Seq<char>, Seq<char>)> {
    seq![
        (".eslintrc"@, "eslint"@),
        (".eslintrc.js"@, "eslint"@),
        (".eslintrc.json"@, "eslint"@),
        ("eslint.config.js"@, "eslint"@),
        (".pylintrc"@, "pylint"@),
        ("pylintrc"@, "pylint"@),
        ("setup.cfg"@, "pylint"@),
        ("Cargo.toml"@, "clippy"@),
    ]
}

fn linter_files_rows() -> (table: Vec<(&'static str, &'static str)>)
    ensures
        rows(table@) == linter_files(),
{
    let table = vec![
        (".eslintrc", "eslint"),
        (".eslintrc.js", "eslint"),
        (".eslintrc.json", "eslint"),
        ("eslint.config.js", "eslint"),
        (".pylintrc", "pylint"),
        ("pylintrc", "pylint"),
        ("setup.cfg", "pylint"),
        ("Cargo.toml", "clippy"),
    ];
    table
}

/// The files that show a tool for a repository of several packages.
pub open spec fn monorepo_files() -> Seq<(Seq<char>, Seq<char>)> {
    seq![
        ("lerna.json"@, "lerna"@),
        ("nx.json"@, "nx"@),
        ("turbo.json"@, "turborepo"@),
        ("pnpm-workspace.yaml"@, "pnpm-workspace"@),
    ]
}

fn monorepo_files_rows() -> (table: Vec<(&'static str, &'static str)>)
    ensures
        rows(table@) == monorepo_files(),
{
    let table = vec![
        ("lerna.json", "lerna"),
        ("nx.json", "nx"),
        ("turbo.json", "turborepo"),
        ("pnpm-workspace.yaml", "pnpm-workspace"),
    ];
    table
}

/// The files that show a package manager for Python.
pub open spec fn python_manager_files() -> Seq<(Seq<char>, Seq<char>)> {
    seq![
        ("dependencies.yml"@, "conda"@),
        ("environment.yml"@, "conda"@),
        ("poetry.lock"@, "poetry"@),
        ("Pipfile"@, "pipenv"@),
    ]
}

fn python_manager_files_rows() -> (table: Vec<(&'static str, &'static str)>)
    ensures
        rows(table@) == python_manager_files(),
{
    let table = vec![
        ("dependencies.yml", "conda"),
        ("environment.yml", "conda"),
        ("poetry.lock", "poetry"),
        ("Pipfile", "pipenv"),
    ];
    table
}

/// The files and directories that show a platform for continuous integration.
pub open spec fn ci_files() -> Seq<(Seq<char>, Seq<char>)> {
    seq![
        (".github/workflows"@, "github-actions"@),
        (".gitlab-ci.yml"@, "gitlab-ci"@),
        ("Jenkinsfile"@, "jenkins"@),
        (".circleci"@, "circleci"@),
        (".travis.yml"@, "travis-ci"@),
        (".azure-pipelines.yml"@, "azure-pipelines"@),
    ]
}

fn ci_files_rows() -> (table: Vec<(&'static str, &'static str)>)
    ensures
        rows(table@) == ci_files(),
{
    let table = vec![
        (".github/workflows", "github-actions"),
        (".gitlab-ci.yml", "gitlab-ci"),
        ("Jenkinsfile", "jenkins"),
        (".circleci", "circleci"),
        (".travis.yml", "travis-ci"),
        (".azure-pipelines.yml", "azure-pipelines"),
    ];
    table
}

/// The files and directories that show a cloud provider.
pub open spec fn cloud_files() -> Seq<(Seq<char>, Seq<char>)> {
    seq![
        (".aws"@, "aws"@),
        ("serverless.yml"@, "aws"@),
        ("serverless.yaml"@, "aws"@),
        ("samconfig.toml"@, "aws"@),
        ("app.yaml"@, "gcp"@),
        (".gcloud"@, "gcp"@),
        ("cloudbuild.yaml"@, "gcp"@),
        ("azure.yaml"@, "azure"@),
        (".azure"@, "azure"@),
        ("azure-pipelines.yml"@, "azure"@),
    ]
}

fn cloud_files_rows() -> (table: Vec<(&'static str, &'static str)>)
    ensures
        rows(table@) == cloud_files(),
{
    let table = vec![
        (".aws", "aws"),
        ("serverless.yml", "aws"),
        ("serverless.yaml", "aws"),
        ("samconfig.toml", "aws"),
        ("app.yaml", "gcp"),
        (".gcloud", "gcp"),
        ("cloudbuild.yaml", "gcp"),
        ("azure.yaml", "azure"),
        (".azure", "azure"),
        ("azure-pipelines.yml", "azure"),
    ];
    table
}

/// The files and directories that show a tool for infrastructure as code.
pub open spec fn iac_files() -> Seq<(Seq<char>, Seq<char>)> {
    seq![
        ("terraform"@, "terraform"@),
        ("*.tf"@, "terraform"@),
        (".terraform"@, "terraform"@),
        ("Pulumi.yaml"@, "pulumi"@),
        ("Pulumi.yml"@, "pulumi"@),
        ("cdk.json"@, "cdk"@),
        ("ansible.cfg"@, "ansible"@),
        ("playbook.yml"@, "ansible"@),
    ]
}

fn iac_files_rows() -> (table: Vec<(&'static str, &'static str)>)
    ensures
        rows(table@) == iac_files(),
{
    let table = vec![
        ("terraform", "terraform"),
        ("*.tf", "terraform"),
        (".terraform", "terraform"),
        ("Pulumi.yaml", "pulumi"),
        ("Pulumi.yml", "pulumi"),
        ("cdk.json", "cdk"),
        ("ansible.cfg", "ansible"),
        ("playbook.yml", "ansible"),
    ];
    table
}

/// The configuration files that show a database.
pub open spec fn database_files() -> Seq<(Seq<char>, Seq<char>)> {
    seq![
        ("postgresql.conf"@, "postgresql"@),
        ("pg_hba.conf"@, "postgresql"@),
        ("my.cnf"@, "mysql"@),
        ("mysql.cnf"@, "mysql"@),
    ]
}

fn database_files_rows() -> (table: Vec<(&'static str, &'static str)>)
    ensures
        rows(table@) == database_files(),
{
    let table = vec![
        ("postgresql.conf", "postgresql"),
        ("pg_hba.conf", "postgresql"),
        ("my.cnf", "mysql"),
        ("mysql.cnf", "mysql"),
    ];
    table
}

/// The packages for Node.js that show a database.
pub open spec fn database_packages() -> Seq<(Seq<char>, Seq<char>)> {
    seq![
        ("pg"@, "postgresql"@),
        ("postgres"@, "postgresql"@),
        ("mysql"@, "mysql"@),
        ("mysql2"@, "mysql"@),
        ("mongodb"@, "mongodb"@),
        ("mongoose"@, "mongodb"@),
        ("redis"@, "redis"@),
        ("ioredis"@, "redis"@),
        ("sqlite3"@, "sqlite"@),
    ]
}

fn database_packages_rows() -> (table: Vec<(&'static str, &'static str)>)
    ensures
        rows(table@) == database_packages(),
{
    let table = vec![
        ("pg", "postgresql"),
        ("postgres", "postgresql"),
        ("mysql", "mysql"),
        ("mysql2", "mysql"),
        ("mongodb", "mongodb"),
        ("mongoose", "mongodb"),
        ("redis", "redis"),
        ("ioredis", "redis"),
        ("sqlite3", "sqlite"),
    ];
    table
}

/// The words in the requirements of a Python project that show a database.
pub open spec fn database_modules() -> Seq<(Seq<char>, Seq<char>)> {
    seq![
        ("psycopg"@, "postgresql"@),
        ("mysql"@, "mysql"@),
        ("pymysql"@, "mysql"@),
        ("pymongo"@, "mongodb"@),
        ("redis"@, "redis"@),
    ]
}

fn database_modules_rows() -> (table: Vec<(&'static str, &'static str)>)
    ensures
        rows(table@) == database_modules(),
{
    let table = vec![
        ("psycopg", "postgresql"),
        ("mysql", "mysql"),
        ("pymysql", "mysql"),
        ("pymongo", "mongodb"),
        ("redis", "redis"),
    ];
    table
}

/// The words in a compose file that show a container registry.
pub open spec fn registry_hosts() -> Seq<(Seq<char>, Seq<char>)> {
    seq![
        ("gcr.io"@, "gcr"@),
        ("ecr"@, "ecr"@),
        ("amazonaws.com"@, "ecr"@),
        ("azurecr.io"@, "acr"@),
        ("docker.io"@, "dockerhub"@),
        ("dockerhub"@, "dockerhub"@),
    ]
}

fn registry_hosts_rows() -> (table: Vec<(&'static str, &'static str)>)
    ensures
        rows(table@) == registry_hosts(),
{
    let table = vec![
        ("gcr.io", "gcr"),
        ("ecr", "ecr"),
        ("amazonaws.com", "ecr"),
        ("azurecr.io", "acr"),
        ("docker.io", "dockerhub"),
        ("dockerhub", "dockerhub"),
    ];
    table
}

/// The directories that show a container registry.
pub open spec fn registry_dirs() -> Seq<(Seq<char>, Seq<char>)> {
    seq![
        (".aws"@, "ecr"@),
        (".gcloud"@, "gcr"@),
        (".azure"@, "acr"@),
    ]
}

fn registry_dirs_rows() -> (table: Vec<(&'static str, &'static str)>)
    ensures
        rows(table@) == registry_dirs(),
{
    let table = vec![
        (".aws", "ecr"),
        (".gcloud", "gcr"),
        (".azure", "acr"),
    ];
    table
}

/// The first of two findings that is one.
pub open spec fn first_of(first: Option<Seq<char>>, second: Option<Seq<char>>) -> Option<Seq<char>> {
    match first {
        Some(found) => Some(found),
        None => second,
    }
}

/// The branch that is checked out: what `git` printed, without the white
/// space around it, unless that is empty.
pub open spec fn git_branch(probe: WorkspaceProbe) -> Option<Seq<char>> {
    match probe.git_branch {
        Some(printed) => if trimmed(printed@).len() > 0 {
            Some(trimmed(printed@))
        } else {
            None
        },
        None => None,
    }
}

/// The branch that is checked out.
pub fn get_git_branch(probe: &WorkspaceProbe) -> (branch: Option<String>)
    ensures
        optional_text(branch) == git_branch(*probe),
{
    match &probe.git_branch {
        Some(printed) => {
            let name = trim(printed.as_str());
            if name.as_str().unicode_len() > 0 {
                Some(name)
            } else {
                None
            }
        },
        None => None,
    }
}

/// The package manager of a Node.js project: the one whose lock file is
/// there, and `npm` where none is.
pub fn detect_node_package_manager(probe: &WorkspaceProbe) -> (manager: Option<String>)
    ensures
        optional_text(manager) == or_text(present_label(*probe, node_lockfiles()), "npm"@),
{
    or_default(first_present(probe, &node_lockfiles_rows()), "npm")
}

/// The version of Node.js that the workspace asks for: what `.nvmrc` holds,
/// else what `.node-version` holds, each without the white space around it,
/// else what `package.json` gives as `engines.node`.
pub open spec fn node_version(probe: WorkspaceProbe) -> Option<Seq<char>> {
    match probe.text(".nvmrc"@) {
        Some(text) => Some(trimmed(text)),
        None => match probe.text(".node-version"@) {
            Some(text) => Some(trimmed(text)),
            None => match package(probe) {
                Some(document) => match document.member("engines"@) {
                    Some(engines) => engines.text_member("node"@),
                    None => None,
                },
                None => None,
            },
        },
    }
}

/// The version of Node.js that the workspace asks for.
pub fn detect_node_version(probe: &WorkspaceProbe) -> (version: Option<String>)
    ensures
        optional_text(version) == node_version(*probe),
{
    if let Some(text) = probe.read(".nvmrc") {
        return Some(trim(text));
    }
    if let Some(text) = probe.read(".node-version") {
        return Some(trim(text));
    }
    match read_package(probe) {
        Some(document) => match document.get("engines") {
            Some(engines) => match engines.get_str("node") {
                Some(version) => Some(String::from_str(version)),
                None => None,
            },
            None => None,
        },
        None => None,
    }
}

/// The web framework that the workspace depends on.
pub fn detect_web_framework(probe: &WorkspaceProbe) -> (framework: Option<String>)
    ensures
        optional_text(framework) == dependency_label(*probe, web_packages()),
{
    first_dependency(probe, &web_packages_rows())
}

/// The backend framework for Node.js that the workspace depends on.
pub fn detect_backend_framework(probe: &WorkspaceProbe) -> (framework: Option<String>)
    ensures
        optional_text(framework) == dependency_label(*probe, backend_packages()),
{
    first_dependency(probe, &backend_packages_rows())
}

/// What the file `name` mentions of `table`, if the file could be read.
pub open spec fn file_mentions(
    probe: WorkspaceProbe,
    name: Seq<char>,
    table: Seq<(Seq<char>, Seq<char>)>,
) -> Option<Seq<char>> {
    match probe.text(name) {
        Some(text) => mentioned_label(text, table),
        None => None,
    }
}

fn mentioned_in(probe: &WorkspaceProbe, name: &str, table: &Vec<(&'static str, &'static str)>) -> (label:
    Option<String>)
    ensures
        optional_text(label) == file_mentions(*probe, name@, rows(table@)),
{
    match probe.read(name) {
        Some(text) => first_mentioned(text, table),
        None => None,
    }
}

/// The backend framework for Python: the first that `requirements.txt`
/// mentions, else the first that `pyproject.toml` mentions, if that exists.
pub open spec fn python_backend_framework(probe: WorkspaceProbe) -> Option<Seq<char>> {
    first_of(
        file_mentions(probe, "requirements.txt"@, python_backends()),
        if probe.has("pyproject.toml"@) {
            file_mentions(probe, "pyproject.toml"@, python_backends())
        } else {
            None
        },
    )
}

/// The backend framework for Python that the workspace uses.
pub fn detect_python_backend_framework(probe: &WorkspaceProbe) -> (framework: Option<String>)
    ensures
        optional_text(framework) == python_backend_framework(*probe),
{
    let table = python_backends_rows();
    match mentioned_in(probe, "requirements.txt", &table) {
        Some(found) => Some(found),
        None => {
            if probe.contains("pyproject.toml") {
                mentioned_in(probe, "pyproject.toml", &table)
            } else {
                None
            }
        },
    }
}

/// The build file of Gradle that is read: `build.gradle` if it exists, else
/// `build.gradle.kts` if that exists.
pub open spec fn gradle_file(probe: WorkspaceProbe) -> Option<Seq<char>> {
    if probe.has("build.gradle"@) {
        Some("build.gradle"@)
    } else if probe.has("build.gradle.kts"@) {
        Some("build.gradle.kts"@)
    } else {
        None
    }
}

fn find_gradle_file(probe: &WorkspaceProbe) -> (name: Option<&'static str>)
    ensures
        match name {
            Some(n) => gradle_file(*probe) == Some(n@),
            None => gradle_file(*probe) is None,
        },
{
    if probe.contains("build.gradle") {
        Some("build.gradle")
    } else if probe.contains("build.gradle.kts") {
        Some("build.gradle.kts")
    } else {
        None
    }
}

/// Whether the file `name` could be read and mentions `word`.
pub open spec fn file_holds(probe: WorkspaceProbe, name: Seq<char>, word: Seq<char>) -> bool {
    probe.text(name) matches Some(text) && is_substring(text, word)
}

fn holds_word(probe: &WorkspaceProbe, name: &str, word: &str) -> (found: bool)
    ensures
        found == file_holds(*probe, name@, word@),
{
    match probe.read(name) {
        Some(text) => contains(text, word),
        None => false,
    }
}

/// The backend framework for Java: Spring Boot, where the build file of
/// Maven or that of Gradle mentions it.
pub open spec fn java_backend_framework(probe: WorkspaceProbe) -> Option<Seq<char>> {
    if probe.has("pom.xml"@) && file_holds(probe, "pom.xml"@, "spring-boot"@) {
        Some("spring-boot"@)
    } else if gradle_file(probe) matches Some(name) && file_holds(probe, name, "spring-boot"@) {
        Some("spring-boot"@)
    } else {
        None
    }
}

/// The backend framework for Java that the workspace uses.
pub fn detect_java_backend_framework(probe: &WorkspaceProbe) -> (framework: Option<String>)
    ensures
        optional_text(framework) == java_backend_framework(*probe),
{
    if probe.contains("pom.xml") && holds_word(probe, "pom.xml", "spring-boot") {
        return Some(String::from_str("spring-boot"));
    }
    match find_gradle_file(probe) {
        Some(name) => {
            if holds_word(probe, name, "spring-boot") {
                Some(String::from_str("spring-boot"))
            } else {
                None
            }
        },
        None => None,
    }
}

/// The build tool: the first that `package.json` depends on, else the first
/// that its build script mentions.
pub open spec fn build_tool(probe: WorkspaceProbe) -> Option<Seq<char>> {
    match package(probe) {
        Some(document) => first_of(
            match dependencies_of(document) {
                Some(dependencies) => member_label(dependencies, build_packages()),
                None => None,
            },
            match document.member("scripts"@) {
                Some(scripts) => match scripts.text_member("build"@) {
                    Some(command) => mentioned_label(command, build_commands()),
                    None => None,
                },
                None => None,
            },
        ),
        None => None,
    }
}

/// The build tool that the workspace uses.
pub fn detect_build_tool(probe: &WorkspaceProbe) -> (tool: Option<String>)
    ensures
        optional_text(tool) == build_tool(*probe),
{
    let document = match read_package(probe) {
        Some(document) => document,
        None => {
            return None;
        },
    };
    let by_package = match dependencies(&document) {
        Some(found) => first_member(found, &build_packages_rows()),
        None => None,
    };
    match by_package {
        Some(found) => Some(found),
        None => match document.get("scripts") {
            Some(scripts) => match scripts.get_str("build") {
                Some(command) => first_mentioned(command, &build_commands_rows()),
                None => None,
            },
            None => None,
        },
    }
}

/// The testing framework for Node.js that the workspace depends on.
pub fn detect_testing_framework(probe: &WorkspaceProbe) -> (framework: Option<String>)
    ensures
        optional_text(framework) == dependency_label(*probe, test_packages()),
{
    first_dependency(probe, &test_packages_rows())
}

/// The testing framework for Python: the first that `requirements.txt`
/// mentions, else `pytest` where `pytest.ini` or `pyproject.toml` exists.
pub open spec fn python_testing_framework(probe: WorkspaceProbe) -> Option<Seq<char>> {
    first_of(
        file_mentions(probe, "requirements.txt"@, python_tests()),
        if probe.has("pytest.ini"@) || probe.has("pyproject.toml"@) {
            Some("pytest"@)
        } else {
            None
        },
    )
}

/// The testing framework for Python that the workspace uses.
pub fn detect_python_testing_framework(probe: &WorkspaceProbe) -> (framework: Option<String>)
    ensures
        optional_text(framework) == python_testing_framework(*probe),
{
    match mentioned_in(probe, "requirements.txt", &python_tests_rows()) {
        Some(found) => Some(found),
        None => {
            if probe.contains("pytest.ini") || probe.contains("pyproject.toml") {
                Some(String::from_str("pytest"))
            } else {
                None
            }
        },
    }
}

/// The linter that the workspace is set up for.
pub fn detect_linter(probe: &WorkspaceProbe) -> (linter: Option<String>)
    ensures
        optional_text(linter) == present_label(*probe, linter_files()),
{
    first_present(probe, &linter_files_rows())
}

/// The formatter: Prettier, where a file of Prettier or `package.json`
/// exists and the workspace depends on Prettier; else Black, where `.black`
/// or `pyproject.toml` exists and `pyproject.toml` has a section for it; else
/// the formatter of Rust or of Go, where the workspace is a project of that
/// language.
pub open spec fn formatter(probe: WorkspaceProbe) -> Option<Seq<char>> {
    if (probe.has(".prettierrc"@) || probe.has(".prettierrc.json"@) || probe.has(
        "prettier.config.js"@,
    ) || probe.has("package.json"@)) && (package_dependencies(probe) matches Some(dependencies)
        && dependencies.member("prettier"@) is Some) {
        Some("prettier"@)
    } else if (probe.has(".black"@) || probe.has("pyproject.toml"@)) && file_holds(
        probe,
        "pyproject.toml"@,
        "[tool.black]"@,
    ) {
        Some("black"@)
    } else if probe.has("Cargo.toml"@) {
        Some("rustfmt"@)
    } else if probe.has("go.mod"@) {
        Some("gofmt"@)
    } else {
        None
    }
}

fn depends_on(probe: &WorkspaceProbe, name: &str) -> (found: bool)
    ensures
        found == (package_dependencies(*probe) matches Some(dependencies) && dependencies.member(
            name@,
        ) is Some),
{
    match read_package(probe) {
        Some(document) => match dependencies(&document) {
            Some(found) => found.contains_key(name),
            None => false,
        },
        None => false,
    }
}

/// The formatter that the workspace is set up for.
pub fn detect_formatter(probe: &WorkspaceProbe) -> (found: Option<String>)
    ensures
        optional_text(found) == formatter(*probe),
{
    if (probe.contains(".prettierrc") || probe.contains(".prettierrc.json") || probe.contains(
        "prettier.config.js",
    ) || probe.contains("package.json")) && depends_on(probe, "prettier") {
        return Some(String::from_str("prettier"));
    }
    if (probe.contains(".black") || probe.contains("pyproject.toml")) && holds_word(
        probe,
        "pyproject.toml",
        "[tool.black]",
    ) {
        return Some(String::from_str("black"));
    }
    if probe.contains("Cargo.toml") {
        return Some(String::from_str("rustfmt"));
    }
    if probe.contains("go.mod") {
        return Some(String::from_str("gofmt"));
    }
    None
}

/// Whether the workspace is a repository of several packages: it holds the
/// file of a tool for that, or a lock file of Yarn and a directory
/// `packages`.
pub open spec fn is_monorepo(probe: WorkspaceProbe) -> bool {
    probe.has("lerna.json"@) || probe.has("nx.json"@) || probe.has("turbo.json"@) || probe.has(
        "pnpm-workspace.yaml"@,
    ) || (probe.has("yarn.lock"@) && probe.has("packages"@))
}

/// Whether the workspace is a repository of several packages.
pub fn detect_monorepo(probe: &WorkspaceProbe) -> (found: bool)
    ensures
        found == is_monorepo(*probe),
{
    probe.contains("lerna.json") || probe.contains("nx.json") || probe.contains("turbo.json")
        || probe.contains("pnpm-workspace.yaml") || (probe.contains("yarn.lock") && probe.contains(
        "packages",
    ))
}

/// The tool that manages the packages of the repository: the one whose file
/// is there, and the workspaces of Yarn where none is.
pub fn detect_monorepo_tool(probe: &WorkspaceProbe) -> (tool: Option<String>)
    ensures
        optional_text(tool) == or_text(present_label(*probe, monorepo_files()), "yarn-workspace"@),
{
    or_default(first_present(probe, &monorepo_files_rows()), "yarn-workspace")
}

/// The package manager of a Python project: the one whose file is there, and
/// `pip` where none is.
pub fn detect_python_package_manager(probe: &WorkspaceProbe) -> (manager: Option<String>)
    ensures
        optional_text(manager) == or_text(present_label(*probe, python_manager_files()), "pip"@),
{
    or_default(first_present(probe, &python_manager_files_rows()), "pip")
}

/// The platform for continuous integration that the workspace is set up for.
pub fn detect_ci_cd(probe: &WorkspaceProbe) -> (platform: Option<String>)
    ensures
        optional_text(platform) == present_label(*probe, ci_files()),
{
    first_present(probe, &ci_files_rows())
}

/// The cloud provider that the workspace is set up for.
pub fn detect_cloud_provider(probe: &WorkspaceProbe) -> (provider: Option<String>)
    ensures
        optional_text(provider) == present_label(*probe, cloud_files()),
{
    first_present(probe, &cloud_files_rows())
}

/// The tool for infrastructure as code that the workspace is set up for.
pub fn detect_iac_tool(probe: &WorkspaceProbe) -> (tool: Option<String>)
    ensures
        optional_text(tool) == present_label(*probe, iac_files()),
{
    first_present(probe, &iac_files_rows())
}

/// The database: the one whose configuration file is there; else, where
/// `package.json` exists, the first that the workspace depends on; else,
/// where `requirements.txt` exists, the first that it mentions.
pub open spec fn database(probe: WorkspaceProbe) -> Option<Seq<char>> {
    first_of(
        present_label(probe, database_files()),
        first_of(
            if probe.has("package.json"@) {
                dependency_label(probe, database_packages())
            } else {
                None
            },
            if probe.has("requirements.txt"@) {
                file_mentions(probe, "requirements.txt"@, database_modules())
            } else {
                None
            },
        ),
    )
}

/// The database that the workspace uses.
pub fn detect_database(probe: &WorkspaceProbe) -> (found: Option<String>)
    ensures
        optional_text(found) == database(*probe),
{
    if let Some(label) = first_present(probe, &database_files_rows()) {
        return Some(label);
    }
    if probe.contains("package.json") {
        if let Some(label) = first_dependency(probe, &database_packages_rows()) {
            return Some(label);
        }
    }
    if probe.contains("requirements.txt") {
        mentioned_in(probe, "requirements.txt", &database_modules_rows())
    } else {
        None
    }
}

/// The text of the compose file: that of `docker-compose.yml` if it could be
/// read, else that of `docker-compose.yaml`.
pub open spec fn compose_text(probe: WorkspaceProbe) -> Option<Seq<char>> {
    match probe.text("docker-compose.yml"@) {
        Some(text) => Some(text),
        None => probe.text("docker-compose.yaml"@),
    }
}

/// The container registry: the first that the compose file mentions, else
/// the one of the cloud provider whose directory is there.
pub open spec fn container_registry(probe: WorkspaceProbe) -> Option<Seq<char>> {
    first_of(
        match compose_text(probe) {
            Some(text) => mentioned_label(text, registry_hosts()),
            None => None,
        },
        present_label(probe, registry_dirs()),
    )
}

/// The container registry that the workspace uses.
pub fn detect_container_registry(probe: &WorkspaceProbe) -> (registry: Option<String>)
    ensures
        optional_text(registry) == container_registry(*probe),
{
    let compose = match probe.read("docker-compose.yml") {
        Some(text) => Some(text),
        None => probe.read("docker-compose.yaml"),
    };
    let mentioned = match compose {
        Some(text) => first_mentioned(text, &registry_hosts_rows()),
        None => None,
    };
    match mentioned {
        Some(found) => Some(found),
        None => first_present(probe, &registry_dirs_rows()),
    }
}

/// The second of the pieces of `line` between its occurrences of `sep`, if
/// `sep` occurs in the line at all.
pub open spec fn second_piece(line: Seq<char>, sep: char) -> Option<Seq<char>> {
    let pieces = split_on(line, sep);
    if pieces.len() > 1 {
        Some(pieces[1])
    } else {
        None
    }
}

fn second_of(line: &str, sep: char) -> (piece: Option<String>)
    ensures
        optional_text(piece) == second_piece(line@, sep),
{
    let pieces = split(line, sep);
    if pieces.len() > 1 {
        Some(pieces[1].clone())
    } else {
        None
    }
}

/// How a version is read from one line of a file.
#[derive(Debug, Clone, Copy, PartialEq, Eq, Structural)]
pub enum LineRule {
    /// `requires-python = "..."` in `pyproject.toml`.
    RequiresPython,
    /// `<java.version>...</java.version>` or `<maven.compiler.source>` in
    /// `pom.xml`.
    MavenJava,
    /// `sourceCompatibility` or `java.toolchain` in a build file of Gradle.
    GradleJava,
    /// `go 1.x` in `go.mod`.
    GoDirective,
    /// `ruby "..."` in a `Gemfile`.
    GemfileRuby,
}

/// What stands between the quotes of a value: the value without the white
/// space around it and without the double quotes at its ends.
pub open spec fn unquoted(value: Seq<char>) -> Seq<char> {
    stripped(trimmed(value), Strip::Char('"'))
}

impl LineRule {
    /// The version that the rule reads from `line`, if it reads one there.
    pub open spec fn value(self, line: Seq<char>) -> Option<Seq<char>> {
        match self {
            LineRule::RequiresPython => if is_substring(line, "requires-python"@) {
                match second_piece(line, '=') {
                    Some(value) => Some(unquoted(value)),
                    None => None,
                }
            } else {
                None
            },
            LineRule::MavenJava => if is_substring(line, "<java.version>"@) || is_substring(
                line,
                "<maven.compiler.source>"@,
            ) {
                match second_piece(line, '>') {
                    Some(value) => Some(trimmed(split_on(value, '<')[0])),
                    None => None,
                }
            } else {
                None
            },
            LineRule::GradleJava => if is_substring(line, "sourceCompatibility"@) || is_substring(
                line,
                "java.toolchain"@,
            ) {
                match first_of(second_piece(line, '='), second_piece(line, ':')) {
                    Some(value) => {
                        let version = stripped(unquoted(value), Strip::Char('\''));
                        if version.len() > 0 {
                            Some(version)
                        } else {
                            None
                        }
                    },
                    None => None,
                }
            } else {
                None
            },
            LineRule::GoDirective => if occurs_at(line, 0, "go "@) {
                if words_of(line).len() > 1 {
                    Some(words_of(line)[1])
                } else {
                    Some(Seq::empty())
                }
            } else {
                None
            },
            LineRule::GemfileRuby => if is_substring(line, "ruby"@) {
                first_of(second_piece(line, '"'), second_piece(line, '\''))
            } else {
                None
            },
        }
    }

    /// Reads a version from `line`.
    pub fn apply(&self, line: &str) -> (value: Option<String>)
        ensures
            optional_text(value) == self.value(line@),
    {
        match self {
            LineRule::RequiresPython => {
                if contains(line, "requires-python") {
                    match second_of(line, '=') {
                        Some(value) => {
                            let inner = trim(value.as_str());
                            Some(trim_matches(inner.as_str(), '"'))
                        },
                        None => None,
                    }
                } else {
                    None
                }
            },
            LineRule::MavenJava => {
                if contains(line, "<java.version>") || contains(line, "<maven.compiler.source>") {
                    match second_of(line, '>') {
                        Some(value) => {
                            let pieces = split(value.as_str(), '<');
                            Some(trim(pieces[0].as_str()))
                        },
                        None => None,
                    }
                } else {
                    None
                }
            },
            LineRule::GradleJava => {
                if contains(line, "sourceCompatibility") || contains(line, "java.toolchain") {
                    let value = match second_of(line, '=') {
                        Some(value) => Some(value),
                        None => second_of(line, ':'),
                    };
                    match value {
                        Some(value) => {
                            let inner = trim(value.as_str());
                            let bare = trim_matches(inner.as_str(), '"');
                            let version = trim_matches(bare.as_str(), '\'');
                            if version.as_str().unicode_len() > 0 {
                                Some(version)
                            } else {
                                None
                            }
                        },
                        None => None,
                    }
                } else {
                    None
                }
            },
            LineRule::GoDirective => {
                if starts_with(line, "go ") {
                    let parts = words(line);
                    if parts.len() > 1 {
                        Some(parts[1].clone())
                    } else {
                        Some(String::new())
                    }
                } else {
                    None
                }
            },
            LineRule::GemfileRuby => {
                if contains(line, "ruby") {
                    match second_of(line, '"') {
                        Some(value) => Some(value),
                        None => second_of(line, '\''),
                    }
                } else {
                    None
                }
            },
        }
    }
}

/// The version that `rule` reads from the first of `lines` from which it
/// reads one.
pub open spec fn first_value(lines: Seq<Seq<char>>, rule: LineRule) -> Option<Seq<char>>
    decreases lines.len(),
{
    if lines.len() == 0 {
        None
    } else {
        match rule.value(lines[0]) {
            Some(value) => Some(value),
            None => first_value(lines.skip(1), rule),
        }
    }
}

/// The version that `rule` reads from the text `text`, line by line.
pub open spec fn scanned(text: Seq<char>, rule: LineRule) -> Option<Seq<char>> {
    first_value(lines_of(text), rule)
}

/// Reads a version from a text, line by line.
pub fn scan(text: &str, rule: LineRule) -> (value: Option<String>)
    ensures
        optional_text(value) == scanned(text@, rule),
{
    let all = lines(text);
    let mut i: usize = 0;
    proof {
        assert(texts(all@).skip(0) =~= texts(all@));
    }
    while i < all.len()
        invariant
            i <= all.len(),
            texts(all@) == lines_of(text@),
            scanned(text@, rule) == first_value(texts(all@).skip(i as int), rule),
        decreases all.len() - i,
    {
        proof {
            assert(texts(all@).skip(i as int).skip(1) =~= texts(all@).skip(i + 1));
        }
        if let Some(value) = rule.apply(all[i].as_str()) {
            return Some(value);
        }
        i += 1;
    }
    None
}

/// The version that `rule` reads from the file `name`, if it could be read.
pub open spec fn file_value(probe: WorkspaceProbe, name: Seq<char>, rule: LineRule) -> Option<
    Seq<char>,
> {
    match probe.text(name) {
        Some(text) => scanned(text, rule),
        None => None,
    }
}

fn scan_file(probe: &WorkspaceProbe, name: &str, rule: LineRule) -> (value: Option<String>)
    ensures
        optional_text(value) == file_value(*probe, name@, rule),
{
    match probe.read(name) {
        Some(text) => scan(text, rule),
        None => None,
    }
}

/// The version of Python that the workspace asks for: what `.python-version`
/// holds, without the white space around it; else what `runtime.txt` names
/// after `python-`, if it begins so; else what `pyproject.toml` requires.
pub open spec fn python_version(probe: WorkspaceProbe) -> Option<Seq<char>> {
    match probe.text(".python-version"@) {
        Some(text) => Some(trimmed(text)),
        None => if probe.text("runtime.txt"@) matches Some(text) && occurs_at(text, 0, "python-"@) {
            Some(replaced(trimmed(probe.text("runtime.txt"@).unwrap()), "python-"@, ""@))
        } else {
            file_value(probe, "pyproject.toml"@, LineRule::RequiresPython)
        },
    }
}

/// The version of Python that the workspace asks for.
pub fn detect_python_version(probe: &WorkspaceProbe) -> (version: Option<String>)
    ensures
        optional_text(version) == python_version(*probe),
{
    if let Some(text) = probe.read(".python-version") {
        return Some(trim(text));
    }
    if let Some(text) = probe.read("runtime.txt") {
        if starts_with(text, "python-") {
            let name = trim(text);
            return Some(replace(name.as_str(), "python-", ""));
        }
    }
    scan_file(probe, "pyproject.toml", LineRule::RequiresPython)
}

/// The version of Java that the build file of Maven names.
pub fn detect_java_version_from_pom(probe: &WorkspaceProbe) -> (version: Option<String>)
    ensures
        optional_text(version) == file_value(*probe, "pom.xml"@, LineRule::MavenJava),
{
    scan_file(probe, "pom.xml", LineRule::MavenJava)
}

/// The version of Java that the build file of Gradle names.
pub open spec fn java_version_from_gradle(probe: WorkspaceProbe) -> Option<Seq<char>> {
    match gradle_file(probe) {
        Some(name) => file_value(probe, name, LineRule::GradleJava),
        None => None,
    }
}

/// The version of Java that the build file of Gradle names.
pub fn detect_java_version_from_gradle(probe: &WorkspaceProbe) -> (version: Option<String>)
    ensures
        optional_text(version) == java_version_from_gradle(*probe),
{
    match find_gradle_file(probe) {
        Some(name) => scan_file(probe, name, LineRule::GradleJava),
        None => None,
    }
}

/// The version of Go that `go.mod` names.
pub fn detect_go_version(probe: &WorkspaceProbe) -> (version: Option<String>)
    ensures
        optional_text(version) == file_value(*probe, "go.mod"@, LineRule::GoDirective),
{
    scan_file(probe, "go.mod", LineRule::GoDirective)
}

/// The version of Ruby that the workspace asks for: what `.ruby-version`
/// holds, without the white space around it, else what the `Gemfile` names.
pub open spec fn ruby_version(probe: WorkspaceProbe) -> Option<Seq<char>> {
    match probe.text(".ruby-version"@) {
        Some(text) => Some(trimmed(text)),
        None => file_value(probe, "Gemfile"@, LineRule::GemfileRuby),
    }
}

/// The version of Ruby that the workspace asks for.
pub fn detect_ruby_version(probe: &WorkspaceProbe) -> (version: Option<String>)
    ensures
        optional_text(version) == ruby_version(*probe),
{
    match probe.read(".ruby-version") {
        Some(text) => Some(trim(text)),
        None => scan_file(probe, "Gemfile", LineRule::GemfileRuby),
    }
}

/// What is known of the workspace.
#[derive(Debug)]
pub struct WorkspaceContext {
    pub is_git_repo: bool,
    pub git_branch: Option<String>,
    pub is_node_project: bool,
    pub node_package_manager: Option<String>,
    pub node_version: Option<String>,
    pub is_typescript_project: bool,
    pub is_monorepo: bool,
    pub monorepo_tool: Option<String>,
    pub is_python_project: bool,
    pub python_package_manager: Option<String>,
    pub python_version: Option<String>,
    pub has_virtualenv: bool,
    pub is_java_project: bool,
    pub java_project_manager: Option<String>,
    pub java_version: Option<String>,
    pub is_rust_project: bool,
    pub is_go_project: bool,
    pub go_version: Option<String>,
    pub is_php_project: bool,
    pub is_ruby_project: bool,
    pub ruby_version: Option<String>,
    pub is_dotnet_project: bool,
    pub web_framework: Option<String>,
    pub backend_framework: Option<String>,
    pub build_tool: Option<String>,
    pub testing_framework: Option<String>,
    pub has_docker: bool,
    pub has_docker_compose: bool,
    pub has_kubernetes: bool,
    pub container_registry: Option<String>,
    pub ci_cd_platform: Option<String>,
    pub cloud_provider: Option<String>,
    pub iac_tool: Option<String>,
    pub database: Option<String>,
    pub has_env_files: bool,
    pub linter: Option<String>,
    pub formatter: Option<String>,
}

impl Default for WorkspaceContext {
    /// A workspace of which nothing is known.
    fn default() -> (context: WorkspaceContext)
        ensures
            !context.is_git_repo,
            context.git_branch is None,
            !context.is_node_project,
            context.node_package_manager is None,
            context.node_version is None,
            !context.is_typescript_project,
            !context.is_monorepo,
            context.monorepo_tool is None,
            !context.is_python_project,
            context.python_package_manager is None,
            context.python_version is None,
            !context.has_virtualenv,
            !context.is_java_project,
            context.java_project_manager is None,
            context.java_version is None,
            !context.is_rust_project,
            !context.is_go_project,
            context.go_version is None,
            !context.is_php_project,
            !context.is_ruby_project,
            context.ruby_version is None,
            !context.is_dotnet_project,
            context.web_framework is None,
            context.backend_framework is None,
            context.build_tool is None,
            context.testing_framework is None,
            !context.has_docker,
            !context.has_docker_compose,
            !context.has_kubernetes,
            context.container_registry is None,
            context.ci_cd_platform is None,
            context.cloud_provider is None,
            context.iac_tool is None,
            context.database is None,
            !context.has_env_files,
            context.linter is None,
            context.formatter is None,
    {
        WorkspaceContext {
            is_git_repo: false,
            git_branch: None,
            is_node_project: false,
            node_package_manager: None,
            node_version: None,
            is_typescript_project: false,
            is_monorepo: false,
            monorepo_tool: None,
            is_python_project: false,
            python_package_manager: None,
            python_version: None,
            has_virtualenv: false,
            is_java_project: false,
            java_project_manager: None,
            java_version: None,
            is_rust_project: false,
            is_go_project: false,
            go_version: None,
            is_php_project: false,
            is_ruby_project: false,
            ruby_version: None,
            is_dotnet_project: false,
            web_framework: None,
            backend_framework: None,
            build_tool: None,
            testing_framework: None,
            has_docker: false,
            has_docker_compose: false,
            has_kubernetes: false,
            container_registry: None,
            ci_cd_platform: None,
            cloud_provider: None,
            iac_tool: None,
            database: None,
            has_env_files: false,
            linter: None,
            formatter: None,
        }
    }
}

/// Whether the workspace is a project for Node.js.
pub open spec fn is_node(probe: WorkspaceProbe) -> bool {
    probe.has("package.json"@)
}

/// Whether the workspace is a project in Python.
pub open spec fn is_python(probe: WorkspaceProbe) -> bool {
    probe.has("requirements.txt"@) || probe.has("pyproject.toml"@) || probe.has("setup.py"@)
        || probe.has("Pipfile"@) || probe.has("poetry.lock"@) || probe.has("setup.cfg"@)
}

/// Whether the workspace is built with Gradle.
pub open spec fn is_gradle(probe: WorkspaceProbe) -> bool {
    probe.has("build.gradle"@) || probe.has("build.gradle.kts"@) || probe.has("settings.gradle"@)
        || probe.has("settings.gradle.kts"@)
}

/// Whether the workspace is a project in Java: it is built with Maven or with
/// Gradle.
pub open spec fn is_java(probe: WorkspaceProbe) -> bool {
    probe.has("pom.xml"@) || is_gradle(probe)
}

/// Whether the workspace is a project in Go.
pub open spec fn is_go(probe: WorkspaceProbe) -> bool {
    probe.has("go.mod"@) || probe.has("Gopkg.toml"@)
}

/// Whether the workspace is a project in Ruby.
pub open spec fn is_ruby(probe: WorkspaceProbe) -> bool {
    probe.has("Gemfile"@) || probe.has("Rakefile"@)
}

/// The backend framework of the workspace. Where it is a project in several
/// languages, Java goes before Python and Python before Node.js.
pub open spec fn backend_framework(probe: WorkspaceProbe) -> Option<Seq<char>> {
    if is_java(probe) {
        java_backend_framework(probe)
    } else if is_python(probe) {
        python_backend_framework(probe)
    } else if is_node(probe) {
        dependency_label(probe, backend_packages())
    } else {
        None
    }
}

/// The testing framework of the workspace. Python goes before Node.js.
pub open spec fn testing_framework(probe: WorkspaceProbe) -> Option<Seq<char>> {
    if is_python(probe) {
        python_testing_framework(probe)
    } else if is_node(probe) {
        dependency_label(probe, test_packages())
    } else {
        None
    }
}

/// The linter of the workspace: that of Rust for a project in Rust, else the
/// one that a project for Node.js is set up for.
pub open spec fn linter(probe: WorkspaceProbe) -> Option<Seq<char>> {
    if probe.has("Cargo.toml"@) {
        Some("clippy"@)
    } else if is_node(probe) {
        present_label(probe, linter_files())
    } else {
        None
    }
}

/// The formatter of the workspace: that of Go for a project in Go, else that
/// of Rust for a project in Rust, else the one that a project for Node.js is
/// set up for.
pub open spec fn workspace_formatter(probe: WorkspaceProbe) -> Option<Seq<char>> {
    if is_go(probe) {
        Some("gofmt"@)
    } else if probe.has("Cargo.toml"@) {
        Some("rustfmt"@)
    } else if is_node(probe) {
        formatter(probe)
    } else {
        None
    }
}

fn node_project(probe: &WorkspaceProbe) -> (found: bool)
    ensures
        found == is_node(*probe),
{
    probe.contains("package.json")
}

fn python_project(probe: &WorkspaceProbe) -> (found: bool)
    ensures
        found == is_python(*probe),
{
    probe.contains("requirements.txt") || probe.contains("pyproject.toml") || probe.contains(
        "setup.py",
    ) || probe.contains("Pipfile") || probe.contains("poetry.lock") || probe.contains("setup.cfg")
}

fn gradle_project(probe: &WorkspaceProbe) -> (found: bool)
    ensures
        found == is_gradle(*probe),
{
    probe.contains("build.gradle") || probe.contains("build.gradle.kts") || probe.contains(
        "settings.gradle",
    ) || probe.contains("settings.gradle.kts")
}

fn go_project(probe: &WorkspaceProbe) -> (found: bool)
    ensures
        found == is_go(*probe),
{
    probe.contains("go.mod") || probe.contains("Gopkg.toml")
}

fn ruby_project(probe: &WorkspaceProbe) -> (found: bool)
    ensures
        found == is_ruby(*probe),
{
    probe.contains("Gemfile") || probe.contains("Rakefile")
}

fn workspace_backend(probe: &WorkspaceProbe) -> (framework: Option<String>)
    ensures
        optional_text(framework) == backend_framework(*probe),
{
    if probe.contains("pom.xml") || gradle_project(probe) {
        detect_java_backend_framework(probe)
    } else if python_project(probe) {
        detect_python_backend_framework(probe)
    } else if node_project(probe) {
        detect_backend_framework(probe)
    } else {
        None
    }
}

fn workspace_testing(probe: &WorkspaceProbe) -> (framework: Option<String>)
    ensures
        optional_text(framework) == testing_framework(*probe),
{
    if python_project(probe) {
        detect_python_testing_framework(probe)
    } else if node_project(probe) {
        detect_testing_framework(probe)
    } else {
        None
    }
}

fn workspace_linter(probe: &WorkspaceProbe) -> (found: Option<String>)
    ensures
        optional_text(found) == linter(*probe),
{
    if probe.contains("Cargo.toml") {
        Some(String::from_str("clippy"))
    } else if node_project(probe) {
        detect_linter(probe)
    } else {
        None
    }
}

fn workspace_format(probe: &WorkspaceProbe) -> (found: Option<String>)
    ensures
        optional_text(found) == workspace_formatter(*probe),
{
    if go_project(probe) {
        Some(String::from_str("gofmt"))
    } else if probe.contains("Cargo.toml") {
        Some(String::from_str("rustfmt"))
    } else if node_project(probe) {
        detect_formatter(probe)
    } else {
        None
    }
}

/// The line that says that the property `name` holds, if it does.
pub open spec fn flag(on: bool, name: Seq<char>) -> Seq<Seq<char>> {
    if on {
        seq![name + ": true"@]
    } else {
        Seq::empty()
    }
}

/// The line that gives the value of the property `name`, if it has one.
pub open spec fn entry(value: Option<String>, name: Seq<char>) -> Seq<Seq<char>> {
    match value {
        Some(text) => seq![name + ": "@ + text@],
        None => Seq::empty(),
    }
}

fn push_flag(lines: &mut Vec<String>, on: bool, name: &str)
    ensures
        texts(final(lines)@) == texts(old(lines)@) + flag(on, name@),
{
    if on {
        let line = concat(name, ": true");
        lines.push(line);
    }
}

fn push_entry(lines: &mut Vec<String>, value: &Option<String>, name: &str)
    ensures
        texts(final(lines)@) == texts(old(lines)@) + entry(*value, name@),
{
    if let Some(text) = value {
        let mut line = String::from_str(name);
        line.append(": ");
        line.append(text.as_str());
        lines.push(line);
    }
}

fn extend(lines: &mut Vec<String>, more: Vec<String>)
    ensures
        texts(final(lines)@) == texts(old(lines)@) + texts(more@),
{
    let mut more = more;
    lines.append(&mut more);
}

impl WorkspaceContext {
    /// The lines on version control.
    pub open spec fn git_lines(self) -> Seq<Seq<char>> {
        if self.is_git_repo {
            flag(true, "is_git_repo"@) + entry(self.git_branch, "git_branch"@)
        } else {
            Seq::empty()
        }
    }

    /// The lines on the repository of several packages.
    pub open spec fn monorepo_lines(self) -> Seq<Seq<char>> {
        if self.is_monorepo {
            flag(true, "is_monorepo"@) + entry(self.monorepo_tool, "monorepo_tool"@)
        } else {
            Seq::empty()
        }
    }

    /// The lines on Node.js.
    pub open spec fn node_lines(self) -> Seq<Seq<char>> {
        if self.is_node_project {
            flag(true, "is_node_project"@) + entry(
                self.node_package_manager,
                "node_package_manager"@,
            ) + entry(self.node_version, "node_version"@) + flag(
                self.is_typescript_project,
                "is_typescript_project"@,
            ) + self.monorepo_lines()
        } else {
            Seq::empty()
        }
    }

    /// The lines on Java.
    pub open spec fn java_lines(self) -> Seq<Seq<char>> {
        if self.is_java_project {
            flag(true, "is_java_project"@) + entry(
                self.java_project_manager,
                "java_project_manager"@,
            ) + entry(self.java_version, "java_version"@)
        } else {
            Seq::empty()
        }
    }

    /// The lines on Python.
    pub open spec fn python_lines(self) -> Seq<Seq<char>> {
        if self.is_python_project {
            flag(true, "is_python_project"@) + entry(
                self.python_package_manager,
                "python_package_manager"@,
            ) + entry(self.python_version, "python_version"@) + flag(
                self.has_virtualenv,
                "has_virtualenv"@,
            )
        } else {
            Seq::empty()
        }
    }

    /// The lines on Go.
    pub open spec fn go_lines(self) -> Seq<Seq<char>> {
        if self.is_go_project {
            flag(true, "is_go_project"@) + entry(self.go_version, "go_version"@)
        } else {
            Seq::empty()
        }
    }

    /// The lines on Ruby.
    pub open spec fn ruby_lines(self) -> Seq<Seq<char>> {
        if self.is_ruby_project {
            flag(true, "is_ruby_project"@) + entry(self.ruby_version, "ruby_version"@)
        } else {
            Seq::empty()
        }
    }

    /// The lines of the description, in their order. A property that does not
    /// hold and a value that is not known have no line; the version, the
    /// package manager and the like of a language are given only for a
    /// project in that language.
    pub open spec fn flag_lines(self) -> Seq<Seq<char>> {
        self.git_lines() + self.node_lines() + self.java_lines() + self.python_lines() + flag(
            self.is_rust_project,
            "is_rust_project"@,
        ) + self.go_lines() + flag(self.is_php_project, "is_php_project"@) + self.ruby_lines()
            + flag(self.is_dotnet_project, "is_dotnet_project"@) + entry(
            self.web_framework,
            "web_framework"@,
        ) + entry(self.backend_framework, "backend_framework"@) + entry(
            self.build_tool,
            "build_tool"@,
        ) + entry(self.testing_framework, "testing_framework"@) + flag(
            self.has_docker,
            "has_docker"@,
        ) + flag(self.has_docker_compose, "has_docker_compose"@) + flag(
            self.has_kubernetes,
            "has_kubernetes"@,
        ) + entry(self.ci_cd_platform, "ci_cd_platform"@) + entry(
            self.cloud_provider,
            "cloud_provider"@,
        ) + entry(self.iac_tool, "iac_tool"@) + entry(self.database, "database"@) + flag(
            self.has_env_files,
            "has_env_files"@,
        ) + entry(self.linter, "linter"@) + entry(self.formatter, "formatter"@) + entry(
            self.container_registry,
            "container_registry"@,
        )
    }

    fn git_flags(&self) -> (lines: Vec<String>)
        ensures
            texts(lines@) == self.git_lines(),
    {
        let mut lines: Vec<String> = Vec::new();
        if self.is_git_repo {
            push_flag(&mut lines, true, "is_git_repo");
            push_entry(&mut lines, &self.git_branch, "git_branch");
        }
        lines
    }

    fn monorepo_flags(&self) -> (lines: Vec<String>)
        ensures
            texts(lines@) == self.monorepo_lines(),
    {
        let mut lines: Vec<String> = Vec::new();
        if self.is_monorepo {
            push_flag(&mut lines, true, "is_monorepo");
            push_entry(&mut lines, &self.monorepo_tool, "monorepo_tool");
        }
        lines
    }

    fn node_flags(&self) -> (lines: Vec<String>)
        ensures
            texts(lines@) == self.node_lines(),
    {
        let mut lines: Vec<String> = Vec::new();
        if self.is_node_project {
            push_flag(&mut lines, true, "is_node_project");
            push_entry(&mut lines, &self.node_package_manager, "node_package_manager");
            push_entry(&mut lines, &self.node_version, "node_version");
            push_flag(&mut lines, self.is_typescript_project, "is_typescript_project");
            extend(&mut lines, self.monorepo_flags());
        }
        lines
    }

    fn java_flags(&self) -> (lines: Vec<String>)
        ensures
            texts(lines@) == self.java_lines(),
    {
        let mut lines: Vec<String> = Vec::new();
        if self.is_java_project {
            push_flag(&mut lines, true, "is_java_project");
            push_entry(&mut lines, &self.java_project_manager, "java_project_manager");
            push_entry(&mut lines, &self.java_version, "java_version");
        }
        lines
    }

    fn python_flags(&self) -> (lines: Vec<String>)
        ensures
            texts(lines@) == self.python_lines(),
    {
        let mut lines: Vec<String> = Vec::new();
        if self.is_python_project {
            push_flag(&mut lines, true, "is_python_project");
            push_entry(&mut lines, &self.python_package_manager, "python_package_manager");
            push_entry(&mut lines, &self.python_version, "python_version");
            push_flag(&mut lines, self.has_virtualenv, "has_virtualenv");
        }
        lines
    }

    fn go_flags(&self) -> (lines: Vec<String>)
        ensures
            texts(lines@) == self.go_lines(),
    {
        let mut lines: Vec<String> = Vec::new();
        if self.is_go_project {
            push_flag(&mut lines, true, "is_go_project");
            push_entry(&mut lines, &self.go_version, "go_version");
        }
        lines
    }

    fn ruby_flags(&self) -> (lines: Vec<String>)
        ensures
            texts(lines@) == self.ruby_lines(),
    {
        let mut lines: Vec<String> = Vec::new();
        if self.is_ruby_project {
            push_flag(&mut lines, true, "is_ruby_project");
            push_entry(&mut lines, &self.ruby_version, "ruby_version");
        }
        lines
    }

    /// The description of the workspace that is put into the system prompt:
    /// one line for each property that holds and each value that is known,
    /// `name: value`, the lines joined by line feeds.
    pub fn to_flags_string(&self) -> (flags: String)
        ensures
            flags@ == joined(self.flag_lines(), "\n"@),
    {
        let mut lines = self.git_flags();
        extend(&mut lines, self.node_flags());
        extend(&mut lines, self.java_flags());
        extend(&mut lines, self.python_flags());
        push_flag(&mut lines, self.is_rust_project, "is_rust_project");
        extend(&mut lines, self.go_flags());
        push_flag(&mut lines, self.is_php_project, "is_php_project");
        extend(&mut lines, self.ruby_flags());
        push_flag(&mut lines, self.is_dotnet_project, "is_dotnet_project");
        push_entry(&mut lines, &self.web_framework, "web_framework");
        push_entry(&mut lines, &self.backend_framework, "backend_framework");
        push_entry(&mut lines, &self.build_tool, "build_tool");
        push_entry(&mut lines, &self.testing_framework, "testing_framework");
        push_flag(&mut lines, self.has_docker, "has_docker");
        push_flag(&mut lines, self.has_docker_compose, "has_docker_compose");
        push_flag(&mut lines, self.has_kubernetes, "has_kubernetes");
        push_entry(&mut lines, &self.ci_cd_platform, "ci_cd_platform");
        push_entry(&mut lines, &self.cloud_provider, "cloud_provider");
        push_entry(&mut lines, &self.iac_tool, "iac_tool");
        push_entry(&mut lines, &self.database, "database");
        push_flag(&mut lines, self.has_env_files, "has_env_files");
        push_entry(&mut lines, &self.linter, "linter");
        push_entry(&mut lines, &self.formatter, "formatter");
        push_entry(&mut lines, &self.container_registry, "container_registry");
        join(&lines, "\n")
    }

    /// What is concluded of the workspace from what was found in it.
    pub fn detect(probe: &WorkspaceProbe) -> (context: WorkspaceContext)
        ensures
            context.is_git_repo == probe.has(".git"@),
            optional_text(context.git_branch) == if probe.has(".git"@) {
                git_branch(*probe)
            } else {
                None
            },
            context.is_node_project == is_node(*probe),
            optional_text(context.node_package_manager) == if is_node(*probe) {
                or_text(present_label(*probe, node_lockfiles()), "npm"@)
            } else {
                None
            },
            optional_text(context.node_version) == if is_node(*probe) {
                node_version(*probe)
            } else {
                None
            },
            context.is_typescript_project == (is_node(*probe) && (probe.has("tsconfig.json"@)
                || probe.has("tsconfig.base.json"@))),
            context.is_monorepo == (is_node(*probe) && is_monorepo(*probe)),
            optional_text(context.monorepo_tool) == if is_node(*probe) && is_monorepo(*probe) {
                or_text(present_label(*probe, monorepo_files()), "yarn-workspace"@)
            } else {
                None
            },
            context.is_python_project == is_python(*probe),
            optional_text(context.python_package_manager) == if is_python(*probe) {
                or_text(present_label(*probe, python_manager_files()), "pip"@)
            } else {
                None
            },
            optional_text(context.python_version) == if is_python(*probe) {
                python_version(*probe)
            } else {
                None
            },
            context.has_virtualenv == (is_python(*probe) && (probe.has("venv"@) || probe.has(
                ".venv"@,
            ) || probe.has("env"@) || probe.has(".env"@))),
            context.is_java_project == is_java(*probe),
            optional_text(context.java_project_manager) == if probe.has("pom.xml"@) {
                Some("maven"@)
            } else if is_gradle(*probe) {
                Some("gradle"@)
            } else {
                None
            },
            optional_text(context.java_version) == if probe.has("pom.xml"@) {
                file_value(*probe, "pom.xml"@, LineRule::MavenJava)
            } else if is_gradle(*probe) {
                java_version_from_gradle(*probe)
            } else {
                None
            },
            context.is_rust_project == probe.has("Cargo.toml"@),
            context.is_go_project == is_go(*probe),
            optional_text(context.go_version) == if is_go(*probe) {
                file_value(*probe, "go.mod"@, LineRule::GoDirective)
            } else {
                None
            },
            context.is_php_project == probe.has("composer.json"@),
            context.is_ruby_project == is_ruby(*probe),
            optional_text(context.ruby_version) == if is_ruby(*probe) {
                ruby_version(*probe)
            } else {
                None
            },
            context.is_dotnet_project == (probe.has("*.csproj"@) || probe.has("*.sln"@)
                || probe.has("*.fsproj"@)),
            optional_text(context.web_framework) == if is_node(*probe) {
                dependency_label(*probe, web_packages())
            } else {
                None
            },
            optional_text(context.backend_framework) == backend_framework(*probe),
            optional_text(context.build_tool) == if is_node(*probe) {
                build_tool(*probe)
            } else {
                None
            },
            optional_text(context.testing_framework) == testing_framework(*probe),
            context.has_docker == (probe.has("Dockerfile"@) || probe.has("docker-compose.yml"@)
                || probe.has("docker-compose.yaml"@) || probe.has(".dockerignore"@)),
            context.has_docker_compose == (probe.has("docker-compose.yml"@) || probe.has(
                "docker-compose.yaml"@,
            )),
            context.has_kubernetes == (probe.has("k8s"@) || probe.has("kubernetes"@) || probe.has(
                "deployment.yaml"@,
            ) || probe.has("deployment.yml"@)),
            optional_text(context.container_registry) == container_registry(*probe),
            optional_text(context.ci_cd_platform) == present_label(*probe, ci_files()),
            optional_text(context.cloud_provider) == present_label(*probe, cloud_files()),
            optional_text(context.iac_tool) == present_label(*probe, iac_files()),
            optional_text(context.database) == database(*probe),
            context.has_env_files == (probe.has(".env"@) || probe.has(".env.local"@) || probe.has(
                ".env.development"@,
            ) || probe.has(".env.production"@)),
            optional_text(context.linter) == linter(*probe),
            optional_text(context.formatter) == workspace_formatter(*probe),
    {
        let git = probe.contains(".git");
        let node = node_project(probe);
        let python = python_project(probe);
        let maven = probe.contains("pom.xml");
        let gradle = gradle_project(probe);
        let go = go_project(probe);
        let ruby = ruby_project(probe);
        let monorepo = node && detect_monorepo(probe);
        WorkspaceContext {
            is_git_repo: git,
            git_branch: if git {
                get_git_branch(probe)
            } else {
                None
            },
            is_node_project: node,
            node_package_manager: if node {
                detect_node_package_manager(probe)
            } else {
                None
            },
            node_version: if node {
                detect_node_version(probe)
            } else {
                None
            },
            is_typescript_project: node && (probe.contains("tsconfig.json") || probe.contains(
                "tsconfig.base.json",
            )),
            is_monorepo: monorepo,
            monorepo_tool: if monorepo {
                detect_monorepo_tool(probe)
            } else {
                None
            },
            is_python_project: python,
            python_package_manager: if python {
                detect_python_package_manager(probe)
            } else {
                None
            },
            python_version: if python {
                detect_python_version(probe)
            } else {
                None
            },
            has_virtualenv: python && (probe.contains("venv") || probe.contains(".venv")
                || probe.contains("env") || probe.contains(".env")),
            is_java_project: maven || gradle,
            java_project_manager: if maven {
                Some(String::from_str("maven"))
            } else if gradle {
                Some(String::from_str("gradle"))
            } else {
                None
            },
            java_version: if maven {
                detect_java_version_from_pom(probe)
            } else if gradle {
                detect_java_version_from_gradle(probe)
            } else {
                None
            },
            is_rust_project: probe.contains("Cargo.toml"),
            is_go_project: go,
            go_version: if go {
                detect_go_version(probe)
            } else {
                None
            },
            is_php_project: probe.contains("composer.json"),
            is_ruby_project: ruby,
            ruby_version: if ruby {
                detect_ruby_version(probe)
            } else {
                None
            },
            is_dotnet_project: probe.contains("*.csproj") || probe.contains("*.sln")
                || probe.contains("*.fsproj"),
            web_framework: if node {
                detect_web_framework(probe)
            } else {
                None
            },
            backend_framework: workspace_backend(probe),
            build_tool: if node {
                detect_build_tool(probe)
            } else {
                None
            },
            testing_framework: workspace_testing(probe),
            has_docker: probe.contains("Dockerfile") || probe.contains("docker-compose.yml")
                || probe.contains("docker-compose.yaml") || probe.contains(".dockerignore"),
            has_docker_compose: probe.contains("docker-compose.yml") || probe.contains(
                "docker-compose.yaml",
            ),
            has_kubernetes: probe.contains("k8s") || probe.contains("kubernetes")
                || probe.contains("deployment.yaml") || probe.contains("deployment.yml"),
            container_registry: detect_container_registry(probe),
            ci_cd_platform: detect_ci_cd(probe),
            cloud_provider: detect_cloud_provider(probe),
            iac_tool: detect_iac_tool(probe),
            database: detect_database(probe),
            has_env_files: probe.contains(".env") || probe.contains(".env.local")
                || probe.contains(".env.development") || probe.contains(".env.production"),
            linter: workspace_linter(probe),
            formatter: workspace_format(probe),
        }
    }
}

/// The texts of a row of names.
pub open spec fn names(list: Seq<&'static str>) -> Seq<Seq<char>> {
    list.map_values(|name: &'static str| name@)
}

/// What the rows of a table look for.
pub open spec fn firsts(table: Seq<(Seq<char>, Seq<char>)>) -> Seq<Seq<char>> {
    table.map_values(|row: (Seq<char>, Seq<char>)| row.0)
}

/// The names whose existence is asked about one by one, beside those of the
/// tables.
pub open spec fn single_entries() -> Seq<Seq<char>> {
    seq![
        ".git"@,
        "package.json"@,
        "tsconfig.json"@,
        "tsconfig.base.json"@,
        "requirements.txt"@,
        "pyproject.toml"@,
        "setup.py"@,
        "Pipfile"@,
        "poetry.lock"@,
        "setup.cfg"@,
        "venv"@,
        ".venv"@,
        "env"@,
        ".env"@,
        "pom.xml"@,
        "build.gradle"@,
        "build.gradle.kts"@,
        "settings.gradle"@,
        "settings.gradle.kts"@,
        "Cargo.toml"@,
        "go.mod"@,
        "Gopkg.toml"@,
        "composer.json"@,
        "Gemfile"@,
        "Rakefile"@,
        "*.csproj"@,
        "*.sln"@,
        "*.fsproj"@,
        "Dockerfile"@,
        "docker-compose.yml"@,
        "docker-compose.yaml"@,
        ".dockerignore"@,
        "k8s"@,
        "kubernetes"@,
        "deployment.yaml"@,
        "deployment.yml"@,
        ".env.local"@,
        ".env.development"@,
        ".env.production"@,
        "pytest.ini"@,
        ".prettierrc"@,
        ".prettierrc.json"@,
        "prettier.config.js"@,
        ".black"@,
        "lerna.json"@,
        "nx.json"@,
        "turbo.json"@,
        "pnpm-workspace.yaml"@,
        "yarn.lock"@,
        "packages"@,
    ]
}

/// The files whose text is read.
pub open spec fn read_files() -> Seq<Seq<char>> {
    seq![
        ".nvmrc"@,
        ".node-version"@,
        "package.json"@,
        "requirements.txt"@,
        "pyproject.toml"@,
        "pom.xml"@,
        "build.gradle"@,
        "build.gradle.kts"@,
        ".python-version"@,
        "runtime.txt"@,
        "go.mod"@,
        ".ruby-version"@,
        "Gemfile"@,
        "docker-compose.yml"@,
        "docker-compose.yaml"@,
    ]
}

fn add_firsts(list: &mut Vec<&'static str>, table: &Vec<(&'static str, &'static str)>)
    ensures
        names(final(list)@) == names(old(list)@) + firsts(rows(table@)),
{
    let mut i: usize = 0;
    while i < table.len()
        invariant
            i <= table.len(),
            names(list@) == names(old(list)@) + firsts(rows(table@)).take(i as int),
        decreases table.len() - i,
    {
        let ghost before = names(list@);
        list.push(table[i].0);
        proof {
            assert(names(list@) =~= before.push(table@[i as int].0@));
        }
        i += 1;
    }
}

impl WorkspaceProbe {
    /// The names whose existence in the workspace is to be reported: those
    /// that are asked about one by one, and then what each table of names
    /// looks for.
    pub fn watched_entries() -> (list: Vec<&'static str>)
        ensures
            names(list@) == single_entries() + firsts(node_lockfiles()) + firsts(linter_files()) + firsts(monorepo_files()) + firsts(python_manager_files()) + firsts(ci_files()) + firsts(cloud_files()) + firsts(iac_files()) + firsts(database_files()) + firsts(registry_dirs()),
    {
        let mut list = vec![
            ".git",
            "package.json",
            "tsconfig.json",
            "tsconfig.base.json",
            "requirements.txt",
            "pyproject.toml",
            "setup.py",
            "Pipfile",
            "poetry.lock",
            "setup.cfg",
            "venv",
            ".venv",
            "env",
            ".env",
            "pom.xml",
            "build.gradle",
            "build.gradle.kts",
            "settings.gradle",
            "settings.gradle.kts",
            "Cargo.toml",
            "go.mod",
            "Gopkg.toml",
            "composer.json",
            "Gemfile",
            "Rakefile",
            "*.csproj",
            "*.sln",
            "*.fsproj",
            "Dockerfile",
            "docker-compose.yml",
            "docker-compose.yaml",
            ".dockerignore",
            "k8s",
            "kubernetes",
            "deployment.yaml",
            "deployment.yml",
            ".env.local",
            ".env.development",
            ".env.production",
            "pytest.ini",
            ".prettierrc",
            ".prettierrc.json",
            "prettier.config.js",
            ".black",
            "lerna.json",
            "nx.json",
            "turbo.json",
            "pnpm-workspace.yaml",
            "yarn.lock",
            "packages",
        ];
        add_firsts(&mut list, &node_lockfiles_rows());
        add_firsts(&mut list, &linter_files_rows());
        add_firsts(&mut list, &monorepo_files_rows());
        add_firsts(&mut list, &python_manager_files_rows());
        add_firsts(&mut list, &ci_files_rows());
        add_firsts(&mut list, &cloud_files_rows());
        add_firsts(&mut list, &iac_files_rows());
        add_firsts(&mut list, &database_files_rows());
        add_firsts(&mut list, &registry_dirs_rows());
        list
    }

    /// The names of the files whose text is to be reported, where it can be
    /// read.
    pub fn watched_files() -> (list: Vec<&'static str>)
        ensures
            names(list@) == read_files(),
    {
        let list = vec![
            ".nvmrc",
            ".node-version",
            "package.json",
            "requirements.txt",
            "pyproject.toml",
            "pom.xml",
            "build.gradle",
            "build.gradle.kts",
            ".python-version",
            "runtime.txt",
            "go.mod",
            ".ruby-version",
            "Gemfile",
            "docker-compose.yml",
            "docker-compose.yaml",
        ];
        list
    }
}

} // verus!
