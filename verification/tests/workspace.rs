use aish::ai::workspace_context as workspace;
use aish::ai::workspace_context::{LineRule, WorkspaceContext, WorkspaceProbe};

fn probe(entries: &[&str], files: &[(&str, &str)]) -> WorkspaceProbe {
    let mut names: Vec<String> = entries.iter().map(|s| s.to_string()).collect();
    for (name, _) in files {
        if !names.iter().any(|n| n == name) {
            names.push(name.to_string());
        }
    }
    WorkspaceProbe {
        entries: names,
        files: files.iter().map(|(n, t)| (n.to_string(), t.to_string())).collect(),
        git_branch: None,
    }
}

fn some(text: &str) -> Option<String> {
    Some(text.to_string())
}

#[test]
fn probe_answers_for_what_was_found() {
    let probe = probe(&["src", ".git"], &[("go.mod", "module x\n")]);
    assert!(probe.contains("src"));
    assert!(probe.contains("go.mod"));
    assert!(!probe.contains("Src"));
    assert_eq!(probe.read("go.mod"), Some("module x\n"));
    assert_eq!(probe.read("src"), None);
}

#[test]
fn empty_workspace_has_nothing_to_tell() {
    let context = WorkspaceContext::detect(&probe(&[], &[]));
    assert!(!context.is_git_repo && !context.is_node_project && !context.is_python_project);
    assert!(context.linter.is_none() && context.formatter.is_none());
    assert_eq!(context.to_flags_string(), "");
    assert_eq!(WorkspaceContext::default().to_flags_string(), "");
}

#[test]
fn git_branch_is_what_git_printed_without_white_space() {
    let mut found = probe(&[".git"], &[]);
    found.git_branch = some("main\n");
    assert_eq!(workspace::get_git_branch(&found), some("main"));
    let context = WorkspaceContext::detect(&found);
    assert!(context.is_git_repo);
    assert_eq!(context.git_branch, some("main"));
    assert_eq!(context.to_flags_string(), "is_git_repo: true\ngit_branch: main");
    found.git_branch = some("  \n");
    assert_eq!(workspace::get_git_branch(&found), None);
    found.git_branch = None;
    assert_eq!(WorkspaceContext::detect(&found).to_flags_string(), "is_git_repo: true");
}

#[test]
fn git_branch_is_not_told_outside_a_repository() {
    let mut found = probe(&[], &[]);
    found.git_branch = some("main");
    assert_eq!(WorkspaceContext::detect(&found).git_branch, None);
}

#[test]
fn node_package_manager_goes_by_the_lock_file() {
    assert_eq!(workspace::detect_node_package_manager(&probe(&["bun.lockb", "yarn.lock"], &[])), some("bun"));
    assert_eq!(workspace::detect_node_package_manager(&probe(&["pnpm-lock.yaml"], &[])), some("pnpm"));
    assert_eq!(workspace::detect_node_package_manager(&probe(&["yarn.lock"], &[])), some("yarn"));
    assert_eq!(workspace::detect_node_package_manager(&probe(&["package-lock.json"], &[])), some("npm"));
    assert_eq!(workspace::detect_node_package_manager(&probe(&[], &[])), some("npm"));
}

#[test]
fn node_version_is_read_from_the_first_source_that_has_it() {
    let package = "{\"engines\": {\"node\": \">=18\"}}";
    let all = probe(&[], &[(".nvmrc", "v20.1.0\n"), (".node-version", "19"), ("package.json", package)]);
    assert_eq!(workspace::detect_node_version(&all), some("v20.1.0"));
    let two = probe(&[], &[(".node-version", " 19 \n"), ("package.json", package)]);
    assert_eq!(workspace::detect_node_version(&two), some("19"));
    let one = probe(&[], &[("package.json", package)]);
    assert_eq!(workspace::detect_node_version(&one), some(">=18"));
    assert_eq!(workspace::detect_node_version(&probe(&[], &[("package.json", "{}")])), None);
    assert_eq!(workspace::detect_node_version(&probe(&[], &[("package.json", "{\"engines\": {\"node\": 18}}")])), None);
    assert_eq!(workspace::detect_node_version(&probe(&[], &[])), None);
}

#[test]
fn frameworks_are_found_among_the_dependencies() {
    let package = "{\"dependencies\": {\"react\": \"18\", \"next\": \"14\", \"express\": \"4\", \"pg\": \"8\"}, \"devDependencies\": {\"vitest\": \"1\"}}";
    let found = probe(&[], &[("package.json", package)]);
    assert_eq!(workspace::detect_web_framework(&found), some("nextjs"));
    assert_eq!(workspace::detect_backend_framework(&found), some("express"));
    assert_eq!(workspace::detect_testing_framework(&found), None);
    assert_eq!(workspace::detect_database(&found), some("postgresql"));
}

#[test]
fn dev_dependencies_count_only_without_dependencies() {
    let package = "{\"devDependencies\": {\"jest\": \"29\", \"vite\": \"5\", \"prettier\": \"3\", \"vue\": \"3\"}}";
    let found = probe(&[], &[("package.json", package)]);
    assert_eq!(workspace::detect_testing_framework(&found), some("jest"));
    assert_eq!(workspace::detect_build_tool(&found), some("vite"));
    assert_eq!(workspace::detect_formatter(&found), some("prettier"));
    assert_eq!(workspace::detect_web_framework(&found), some("vue"));
    let not_an_object = "{\"dependencies\": \"none\", \"devDependencies\": {\"mocha\": \"10\"}}";
    let found = probe(&[], &[("package.json", not_an_object)]);
    assert_eq!(workspace::detect_testing_framework(&found), some("mocha"));
}

#[test]
fn unreadable_package_file_tells_nothing() {
    let found = probe(&["package.json"], &[]);
    assert_eq!(workspace::detect_web_framework(&found), None);
    let broken = probe(&[], &[("package.json", "{ broken")]);
    assert_eq!(workspace::detect_web_framework(&broken), None);
    assert_eq!(workspace::detect_build_tool(&broken), None);
}

#[test]
fn build_tool_is_read_from_the_build_script_as_a_last_resort() {
    let package = "{\"dependencies\": {\"lodash\": \"4\"}, \"scripts\": {\"build\": \"webpack --mode production\"}}";
    assert_eq!(workspace::detect_build_tool(&probe(&[], &[("package.json", package)])), some("webpack"));
    let package = "{\"scripts\": {\"build\": \"vite build\"}}";
    assert_eq!(workspace::detect_build_tool(&probe(&[], &[("package.json", package)])), some("vite"));
    let package = "{\"scripts\": {\"build\": \"tsc\"}}";
    assert_eq!(workspace::detect_build_tool(&probe(&[], &[("package.json", package)])), None);
    let package = "{\"dependencies\": {\"rollup\": \"4\"}, \"scripts\": {\"build\": \"vite build\"}}";
    assert_eq!(workspace::detect_build_tool(&probe(&[], &[("package.json", package)])), some("rollup"));
}

#[test]
fn python_frameworks_are_found_in_the_requirements() {
    let found = probe(&[], &[("requirements.txt", "flask==3.0\npytest\npsycopg2\n")]);
    assert_eq!(workspace::detect_python_backend_framework(&found), some("flask"));
    assert_eq!(workspace::detect_python_testing_framework(&found), some("pytest"));
    assert_eq!(workspace::detect_database(&found), some("postgresql"));
    let found = probe(&[], &[("requirements.txt", "requests\n"), ("pyproject.toml", "[tool.poetry.dependencies]\nfastapi = \"*\"\n")]);
    assert_eq!(workspace::detect_python_backend_framework(&found), some("fastapi"));
    assert_eq!(workspace::detect_python_testing_framework(&found), some("pytest"));
    let found = probe(&["pytest.ini"], &[]);
    assert_eq!(workspace::detect_python_testing_framework(&found), some("pytest"));
    assert_eq!(workspace::detect_python_testing_framework(&probe(&[], &[])), None);
    let found = probe(&[], &[("requirements.txt", "unittest2\n")]);
    assert_eq!(workspace::detect_python_testing_framework(&found), some("unittest"));
}

#[test]
fn spring_boot_is_found_in_the_build_file() {
    let found = probe(&[], &[("pom.xml", "<artifactId>spring-boot-starter</artifactId>")]);
    assert_eq!(workspace::detect_java_backend_framework(&found), some("spring-boot"));
    let found = probe(&[], &[("build.gradle.kts", "id(\"org.springframework.boot\")\nimplementation(\"spring-boot-starter\")")]);
    assert_eq!(workspace::detect_java_backend_framework(&found), some("spring-boot"));
    let found = probe(&[], &[("build.gradle", "plugins {}"), ("build.gradle.kts", "spring-boot")]);
    assert_eq!(workspace::detect_java_backend_framework(&found), None);
    assert_eq!(workspace::detect_java_backend_framework(&probe(&[], &[])), None);
}

#[test]
fn linter_goes_by_the_first_file_that_is_there() {
    assert_eq!(workspace::detect_linter(&probe(&[".eslintrc.json", "Cargo.toml"], &[])), some("eslint"));
    assert_eq!(workspace::detect_linter(&probe(&["setup.cfg", "Cargo.toml"], &[])), some("pylint"));
    assert_eq!(workspace::detect_linter(&probe(&["Cargo.toml"], &[])), some("clippy"));
    assert_eq!(workspace::detect_linter(&probe(&["README.md"], &[])), None);
}

#[test]
fn formatter_goes_by_files_and_dependencies() {
    let found = probe(&[".prettierrc"], &[("package.json", "{\"dependencies\": {\"prettier\": \"3\"}}")]);
    assert_eq!(workspace::detect_formatter(&found), some("prettier"));
    assert_eq!(workspace::detect_formatter(&probe(&[".prettierrc"], &[])), None);
    let found = probe(&[], &[("pyproject.toml", "[tool.black]\nline-length = 100\n")]);
    assert_eq!(workspace::detect_formatter(&found), some("black"));
    assert_eq!(workspace::detect_formatter(&probe(&["Cargo.toml", "go.mod"], &[])), some("rustfmt"));
    assert_eq!(workspace::detect_formatter(&probe(&["go.mod"], &[])), some("gofmt"));
    assert_eq!(workspace::detect_formatter(&probe(&[], &[])), None);
}

#[test]
fn monorepo_goes_by_the_tool_files() {
    assert!(workspace::detect_monorepo(&probe(&["nx.json"], &[])));
    assert!(workspace::detect_monorepo(&probe(&["yarn.lock", "packages"], &[])));
    assert!(!workspace::detect_monorepo(&probe(&["yarn.lock"], &[])));
    assert!(!workspace::detect_monorepo(&probe(&["packages"], &[])));
    assert_eq!(workspace::detect_monorepo_tool(&probe(&["lerna.json", "nx.json"], &[])), some("lerna"));
    assert_eq!(workspace::detect_monorepo_tool(&probe(&["turbo.json"], &[])), some("turborepo"));
    assert_eq!(workspace::detect_monorepo_tool(&probe(&["pnpm-workspace.yaml"], &[])), some("pnpm-workspace"));
    assert_eq!(workspace::detect_monorepo_tool(&probe(&["yarn.lock", "packages"], &[])), some("yarn-workspace"));
}

#[test]
fn python_package_manager_goes_by_its_files() {
    assert_eq!(workspace::detect_python_package_manager(&probe(&["environment.yml", "poetry.lock"], &[])), some("conda"));
    assert_eq!(workspace::detect_python_package_manager(&probe(&["poetry.lock", "Pipfile"], &[])), some("poetry"));
    assert_eq!(workspace::detect_python_package_manager(&probe(&["Pipfile"], &[])), some("pipenv"));
    assert_eq!(workspace::detect_python_package_manager(&probe(&["requirements.txt"], &[])), some("pip"));
}

#[test]
fn python_version_is_read_from_the_first_source_that_has_it() {
    let found = probe(&[], &[(".python-version", "3.12.1\n"), ("runtime.txt", "python-3.9")]);
    assert_eq!(workspace::detect_python_version(&found), some("3.12.1"));
    let found = probe(&[], &[("runtime.txt", "python-3.9.18\n")]);
    assert_eq!(workspace::detect_python_version(&found), some("3.9.18"));
    let found = probe(&[], &[("runtime.txt", "pypy-3.9"), ("pyproject.toml", "[project]\nrequires-python = \">=3.10\"\n")]);
    assert_eq!(workspace::detect_python_version(&found), some(">"));
    let found = probe(&[], &[("pyproject.toml", "[project]\nname = \"x\"\nrequires-python = \"3.11\"\n")]);
    assert_eq!(workspace::detect_python_version(&found), some("3.11"));
    assert_eq!(workspace::detect_python_version(&probe(&[], &[("pyproject.toml", "[project]\n")])), None);
}

#[test]
fn java_version_is_read_from_the_build_file() {
    let pom = "<project>\n  <properties>\n    <java.version> 17 </java.version>\n  </properties>\n</project>";
    assert_eq!(workspace::detect_java_version_from_pom(&probe(&[], &[("pom.xml", pom)])), some("17"));
    let pom = "<maven.compiler.source>11</maven.compiler.source>";
    assert_eq!(workspace::detect_java_version_from_pom(&probe(&[], &[("pom.xml", pom)])), some("11"));
    assert_eq!(workspace::detect_java_version_from_pom(&probe(&[], &[("pom.xml", "<project/>")])), None);
    let gradle = "plugins { id 'java' }\nsourceCompatibility = '17'\n";
    assert_eq!(workspace::detect_java_version_from_gradle(&probe(&[], &[("build.gradle", gradle)])), some("17"));
    let gradle = "java.toolchain.languageVersion: \"21\"\n";
    assert_eq!(workspace::detect_java_version_from_gradle(&probe(&[], &[("build.gradle.kts", gradle)])), some("21"));
    let gradle = "sourceCompatibility =\nsourceCompatibility = JavaVersion.VERSION_11\n";
    assert_eq!(
        workspace::detect_java_version_from_gradle(&probe(&[], &[("build.gradle", gradle)])),
        some("JavaVersion.VERSION_11")
    );
    assert_eq!(workspace::detect_java_version_from_gradle(&probe(&[], &[("settings.gradle", "sourceCompatibility = 1")])), None);
}

#[test]
fn go_version_is_the_second_word_of_the_go_line() {
    let found = probe(&[], &[("go.mod", "module example.com/x\n\ngo 1.21\n\nrequire x v1\n")]);
    assert_eq!(workspace::detect_go_version(&found), some("1.21"));
    assert_eq!(workspace::detect_go_version(&probe(&[], &[("go.mod", "go \n")])), some(""));
    assert_eq!(workspace::detect_go_version(&probe(&[], &[("go.mod", "module x\n")])), None);
    assert_eq!(workspace::detect_go_version(&probe(&["go.mod"], &[])), None);
}

#[test]
fn ruby_version_is_read_from_the_version_file_or_the_gemfile() {
    let found = probe(&[], &[(".ruby-version", "3.3.0\n"), ("Gemfile", "ruby \"3.2.0\"")]);
    assert_eq!(workspace::detect_ruby_version(&found), some("3.3.0"));
    let found = probe(&[], &[("Gemfile", "source \"https://rubygems.org\"\nruby '3.2.2'\n")]);
    assert_eq!(workspace::detect_ruby_version(&found), some("https://rubygems.org"));
    let found = probe(&[], &[("Gemfile", "# gems\nruby '3.2.2'\n")]);
    assert_eq!(workspace::detect_ruby_version(&found), some("3.2.2"));
    assert_eq!(workspace::detect_ruby_version(&probe(&[], &[("Gemfile", "gem 'rails'\n")])), None);
}

#[test]
fn line_rules_read_one_line() {
    assert_eq!(LineRule::RequiresPython.apply("requires-python = \">=3.8\""), some(">"));
    assert_eq!(LineRule::RequiresPython.apply("requires-python = \"3.8\" "), some("3.8"));
    assert_eq!(LineRule::RequiresPython.apply("requires-python"), None);
    assert_eq!(LineRule::RequiresPython.apply("python = \"3.8\""), None);
    assert_eq!(LineRule::MavenJava.apply("<java.version>21</java.version>"), some("21"));
    assert_eq!(LineRule::MavenJava.apply("<version>21</version>"), None);
    assert_eq!(LineRule::GradleJava.apply("sourceCompatibility = \"'8'\""), some("8"));
    assert_eq!(LineRule::GradleJava.apply("sourceCompatibility = \"\""), None);
    assert_eq!(LineRule::GradleJava.apply("sourceCompatibility"), None);
    assert_eq!(LineRule::GoDirective.apply("go 1.22 // toolchain"), some("1.22"));
    assert_eq!(LineRule::GoDirective.apply("golang 1.22"), None);
    assert_eq!(LineRule::GemfileRuby.apply("ruby \"3.1\""), some("3.1"));
    assert_eq!(LineRule::GemfileRuby.apply("ruby 3.1"), None);
    assert_eq!(workspace::scan("a\nb = 1\ngo 1.2\ngo 1.3", LineRule::GoDirective), some("1.2"));
}

#[test]
fn platforms_go_by_their_files() {
    assert_eq!(workspace::detect_ci_cd(&probe(&[".github/workflows", ".travis.yml"], &[])), some("github-actions"));
    assert_eq!(workspace::detect_ci_cd(&probe(&[".github"], &[])), None);
    assert_eq!(workspace::detect_ci_cd(&probe(&["Jenkinsfile"], &[])), some("jenkins"));
    assert_eq!(workspace::detect_ci_cd(&probe(&[".azure-pipelines.yml"], &[])), some("azure-pipelines"));
    assert_eq!(workspace::detect_cloud_provider(&probe(&["serverless.yml", "app.yaml"], &[])), some("aws"));
    assert_eq!(workspace::detect_cloud_provider(&probe(&["cloudbuild.yaml", ".azure"], &[])), some("gcp"));
    assert_eq!(workspace::detect_cloud_provider(&probe(&["azure-pipelines.yml"], &[])), some("azure"));
    assert_eq!(workspace::detect_cloud_provider(&probe(&[], &[])), None);
    assert_eq!(workspace::detect_iac_tool(&probe(&[".terraform", "cdk.json"], &[])), some("terraform"));
    assert_eq!(workspace::detect_iac_tool(&probe(&["Pulumi.yml"], &[])), some("pulumi"));
    assert_eq!(workspace::detect_iac_tool(&probe(&["playbook.yml"], &[])), some("ansible"));
    assert_eq!(workspace::detect_iac_tool(&probe(&["main.tf"], &[])), None);
}

#[test]
fn database_goes_by_files_then_packages_then_requirements() {
    let found = probe(&["my.cnf"], &[("package.json", "{\"dependencies\": {\"pg\": \"8\"}}")]);
    assert_eq!(workspace::detect_database(&found), some("mysql"));
    let found = probe(&[], &[("package.json", "{\"dependencies\": {\"ioredis\": \"5\", \"sqlite3\": \"5\"}}"), ("requirements.txt", "pymongo")]);
    assert_eq!(workspace::detect_database(&found), some("redis"));
    let found = probe(&[], &[("package.json", "{\"dependencies\": {\"left-pad\": \"1\"}}"), ("requirements.txt", "pymongo\n")]);
    assert_eq!(workspace::detect_database(&found), some("mongodb"));
    let found = probe(&[], &[("requirements.txt", "pymysql\n")]);
    assert_eq!(workspace::detect_database(&found), some("mysql"));
    assert_eq!(workspace::detect_database(&probe(&[], &[])), None);
}

#[test]
fn container_registry_goes_by_the_compose_file_then_the_cloud() {
    let found = probe(&[".aws"], &[("docker-compose.yml", "image: gcr.io/project/app\n")]);
    assert_eq!(workspace::detect_container_registry(&found), some("gcr"));
    let found = probe(&[], &[("docker-compose.yaml", "image: 123.dkr.ecr.eu-west-1.amazonaws.com/app\n")]);
    assert_eq!(workspace::detect_container_registry(&found), some("ecr"));
    let found = probe(&[".azure"], &[("docker-compose.yml", "image: nginx\n")]);
    assert_eq!(workspace::detect_container_registry(&found), some("acr"));
    let found = probe(&[], &[("docker-compose.yml", "image: secret-service\n")]);
    assert_eq!(workspace::detect_container_registry(&found), some("ecr"));
    assert_eq!(workspace::detect_container_registry(&probe(&[".gcloud"], &[])), some("gcr"));
    assert_eq!(workspace::detect_container_registry(&probe(&[], &[])), None);
}

#[test]
fn node_workspace_is_described() {
    let package = "{\"dependencies\": {\"react\": \"18\", \"express\": \"4\"}, \"engines\": {\"node\": \"20\"}}";
    let mut found = probe(
        &[".git", "tsconfig.json", "yarn.lock", "packages", ".eslintrc", "Dockerfile", ".env", ".github/workflows"],
        &[("package.json", package)],
    );
    found.git_branch = some("feature/x\n");
    let context = WorkspaceContext::detect(&found);
    assert!(context.is_node_project && context.is_typescript_project && context.is_monorepo);
    assert_eq!(context.monorepo_tool, some("yarn-workspace"));
    assert_eq!(
        context.to_flags_string(),
        "is_git_repo: true\n\
         git_branch: feature/x\n\
         is_node_project: true\n\
         node_package_manager: yarn\n\
         node_version: 20\n\
         is_typescript_project: true\n\
         is_monorepo: true\n\
         monorepo_tool: yarn-workspace\n\
         web_framework: react\n\
         backend_framework: express\n\
         has_docker: true\n\
         ci_cd_platform: github-actions\n\
         has_env_files: true\n\
         linter: eslint"
    );
}

#[test]
fn python_workspace_is_described() {
    let found = probe(
        &["venv", "docker-compose.yml", "k8s"],
        &[("requirements.txt", "django\npytest\nredis\n"), (".python-version", "3.12\n")],
    );
    let context = WorkspaceContext::detect(&found);
    assert_eq!(
        context.to_flags_string(),
        "is_python_project: true\n\
         python_package_manager: pip\n\
         python_version: 3.12\n\
         has_virtualenv: true\n\
         backend_framework: django\n\
         testing_framework: pytest\n\
         has_docker: true\n\
         has_docker_compose: true\n\
         has_kubernetes: true\n\
         database: redis"
    );
}

#[test]
fn later_languages_override_earlier_findings() {
    let package = "{\"dependencies\": {\"express\": \"4\", \"jest\": \"29\", \"prettier\": \"3\"}}";
    let found = probe(
        &["setup.py", "Cargo.toml", "go.mod", ".eslintrc"],
        &[("package.json", package), ("pom.xml", "<java.version>17</java.version>")],
    );
    let context = WorkspaceContext::detect(&found);
    // A Python project without requirements knows no backend; Java is asked
    // last and knows none either.
    assert_eq!(context.backend_framework, None);
    assert_eq!(context.testing_framework, None);
    assert_eq!(context.linter, some("clippy"));
    assert_eq!(context.formatter, some("gofmt"));
    assert_eq!(context.java_project_manager, some("maven"));
    assert_eq!(context.java_version, some("17"));
    assert!(context.is_rust_project && context.is_go_project && context.is_java_project);
    assert_eq!(context.go_version, None);
}

#[test]
fn java_ruby_php_workspace_is_described() {
    let found = probe(
        &["settings.gradle", "Gemfile", "composer.json"],
        &[("build.gradle", "sourceCompatibility = 11\nimplementation 'spring-boot-starter'")],
    );
    let context = WorkspaceContext::detect(&found);
    assert_eq!(
        context.to_flags_string(),
        "is_java_project: true\n\
         java_project_manager: gradle\n\
         java_version: 11\n\
         is_php_project: true\n\
         is_ruby_project: true\n\
         backend_framework: spring-boot"
    );
}

#[test]
fn findings_of_a_language_are_told_only_for_a_project_in_it() {
    let mut context = WorkspaceContext::default();
    context.node_version = some("20");
    context.git_branch = some("main");
    context.python_version = some("3.12");
    context.web_framework = some("react");
    assert_eq!(context.to_flags_string(), "web_framework: react");
    context.is_node_project = true;
    assert_eq!(context.to_flags_string(), "is_node_project: true\nnode_version: 20\nweb_framework: react");
}

#[test]
fn every_name_that_is_looked_for_is_watched() {
    let watched = WorkspaceProbe::watched_entries();
    for name in [
        ".git", "package.json", "Cargo.toml", "go.mod", "*.csproj", ".env.production",
        "bun.lockb", ".eslintrc", "pnpm-workspace.yaml", "environment.yml", ".github/workflows",
        "samconfig.toml", "*.tf", "pg_hba.conf", ".azure", "packages", "pytest.ini",
    ] {
        assert!(watched.contains(&name), "{}", name);
    }
    assert_eq!(watched[0], ".git");
    assert_eq!(watched.len(), 50 + 4 + 8 + 4 + 4 + 6 + 10 + 8 + 4 + 3);
    let files = WorkspaceProbe::watched_files();
    assert_eq!(files.len(), 15);
    for name in ["package.json", ".nvmrc", "Gemfile", "docker-compose.yaml", "runtime.txt"] {
        assert!(files.contains(&name), "{}", name);
    }
}
