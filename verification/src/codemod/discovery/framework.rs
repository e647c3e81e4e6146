//! Framework detection and filtering.
use vstd::prelude::*;

use super::snapshot::RepoSnapshot;
use crate::text::{contains, lowercase, str_contains, str_views, to_lowercase};

verus! {

/// Known frameworks for detection.
#[derive(Debug, Clone, Copy, PartialEq, Eq, Hash, Structural)]
pub enum Framework {
    /// React (react, react-dom)
    React,
    /// Next.js (next)
    NextJs,
    /// Vue.js (vue)
    Vue,
    /// Nuxt.js (nuxt)
    NuxtJs,
    /// Angular (@angular/core)
    Angular,
    /// Svelte (svelte)
    Svelte,
    /// Express.js (express)
    Express,
    /// NestJS (@nestjs/core)
    NestJs,
    /// Fastify (fastify)
    Fastify,
    /// Django (django)
    Django,
    /// Flask (flask)
    Flask,
    /// FastAPI (fastapi)
    FastAPI,
    /// Pyramid (pyramid)
    Pyramid,
    /// Tornado (tornado)
    Tornado,
    /// Ruby on Rails (rails)
    Rails,
    /// Sinatra (sinatra)
    Sinatra,
    /// Hanami (hanami)
    Hanami,
    /// Spring Boot (spring-boot)
    SpringBoot,
    /// Quarkus (quarkus)
    Quarkus,
    /// Micronaut (micronaut)
    Micronaut,
    /// Jakarta EE
    JakartaEE,
    /// ASP.NET Core
    AspNetCore,
    /// Blazor
    Blazor,
    /// Gin (gin-gonic/gin)
    Gin,
    /// Echo (labstack/echo)
    Echo,
    /// Fiber (gofiber/fiber)
    Fiber,
    /// Chi (go-chi/chi)
    Chi,
    /// Actix Web (actix-web)
    ActixWeb,
    /// Axum (axum)
    Axum,
    /// Rocket (rocket)
    Rocket,
    /// Warp (warp)
    Warp,
    /// Laravel (laravel/framework)
    Laravel,
    /// Symfony (symfony/framework-bundle)
    Symfony,
    /// Jest (jest)
    Jest,
    /// Mocha (mocha)
    Mocha,
    /// Pytest (pytest)
    Pytest,
    /// RSpec (rspec)
    RSpec,
    /// JUnit (junit)
    JUnit,
}

/// The category of a framework.
pub open spec fn framework_category(f: Framework) -> FrameworkCategory {
    match f {
        Framework::React => FrameworkCategory::Frontend,
        Framework::NextJs => FrameworkCategory::Fullstack,
        Framework::Vue => FrameworkCategory::Frontend,
        Framework::NuxtJs => FrameworkCategory::Fullstack,
        Framework::Angular => FrameworkCategory::Frontend,
        Framework::Svelte => FrameworkCategory::Frontend,
        Framework::Express => FrameworkCategory::Backend,
        Framework::NestJs => FrameworkCategory::Backend,
        Framework::Fastify => FrameworkCategory::Backend,
        Framework::Django => FrameworkCategory::Backend,
        Framework::Flask => FrameworkCategory::Backend,
        Framework::FastAPI => FrameworkCategory::Backend,
        Framework::Pyramid => FrameworkCategory::Backend,
        Framework::Tornado => FrameworkCategory::Backend,
        Framework::Rails => FrameworkCategory::Backend,
        Framework::Sinatra => FrameworkCategory::Backend,
        Framework::Hanami => FrameworkCategory::Backend,
        Framework::SpringBoot => FrameworkCategory::Backend,
        Framework::Quarkus => FrameworkCategory::Backend,
        Framework::Micronaut => FrameworkCategory::Backend,
        Framework::JakartaEE => FrameworkCategory::Backend,
        Framework::AspNetCore => FrameworkCategory::Backend,
        Framework::Blazor => FrameworkCategory::Backend,
        Framework::Gin => FrameworkCategory::Backend,
        Framework::Echo => FrameworkCategory::Backend,
        Framework::Fiber => FrameworkCategory::Backend,
        Framework::Chi => FrameworkCategory::Backend,
        Framework::ActixWeb => FrameworkCategory::Backend,
        Framework::Axum => FrameworkCategory::Backend,
        Framework::Rocket => FrameworkCategory::Backend,
        Framework::Warp => FrameworkCategory::Backend,
        Framework::Laravel => FrameworkCategory::Backend,
        Framework::Symfony => FrameworkCategory::Backend,
        Framework::Jest => FrameworkCategory::Testing,
        Framework::Mocha => FrameworkCategory::Testing,
        Framework::Pytest => FrameworkCategory::Testing,
        Framework::RSpec => FrameworkCategory::Testing,
        Framework::JUnit => FrameworkCategory::Testing,
    }
}

/// The primary language of a framework.
pub open spec fn framework_language(f: Framework) -> Seq<char> {
    match f {
        Framework::React => "javascript"@,
        Framework::NextJs => "javascript"@,
        Framework::Vue => "javascript"@,
        Framework::NuxtJs => "javascript"@,
        Framework::Angular => "javascript"@,
        Framework::Svelte => "javascript"@,
        Framework::Express => "javascript"@,
        Framework::NestJs => "javascript"@,
        Framework::Fastify => "javascript"@,
        Framework::Django => "python"@,
        Framework::Flask => "python"@,
        Framework::FastAPI => "python"@,
        Framework::Pyramid => "python"@,
        Framework::Tornado => "python"@,
        Framework::Rails => "ruby"@,
        Framework::Sinatra => "ruby"@,
        Framework::Hanami => "ruby"@,
        Framework::SpringBoot => "java"@,
        Framework::Quarkus => "java"@,
        Framework::Micronaut => "java"@,
        Framework::JakartaEE => "java"@,
        Framework::AspNetCore => "csharp"@,
        Framework::Blazor => "csharp"@,
        Framework::Gin => "go"@,
        Framework::Echo => "go"@,
        Framework::Fiber => "go"@,
        Framework::Chi => "go"@,
        Framework::ActixWeb => "rust"@,
        Framework::Axum => "rust"@,
        Framework::Rocket => "rust"@,
        Framework::Warp => "rust"@,
        Framework::Laravel => "php"@,
        Framework::Symfony => "php"@,
        Framework::Jest => "javascript"@,
        Framework::Mocha => "javascript"@,
        Framework::Pytest => "python"@,
        Framework::RSpec => "ruby"@,
        Framework::JUnit => "java"@,
    }
}

/// The package names that reveal a framework in a manifest.
pub open spec fn detection_packages_spec(f: Framework) -> Seq<Seq<char>> {
    match f {
        Framework::React => seq!["react"@, "react-dom"@],
        Framework::NextJs => seq!["next"@],
        Framework::Vue => seq!["vue"@],
        Framework::NuxtJs => seq!["nuxt"@],
        Framework::Angular => seq!["@angular/core"@],
        Framework::Svelte => seq!["svelte"@],
        Framework::Express => seq!["express"@],
        Framework::NestJs => seq!["@nestjs/core"@],
        Framework::Fastify => seq!["fastify"@],
        Framework::Django => seq!["django"@, "Django"@],
        Framework::Flask => seq!["flask"@, "Flask"@],
        Framework::FastAPI => seq!["fastapi"@],
        Framework::Pyramid => seq!["pyramid"@],
        Framework::Tornado => seq!["tornado"@],
        Framework::Rails => seq!["rails"@],
        Framework::Sinatra => seq!["sinatra"@],
        Framework::Hanami => seq!["hanami"@],
        Framework::SpringBoot => seq!["spring-boot"@, "org.springframework.boot"@],
        Framework::Quarkus => seq!["quarkus"@, "io.quarkus"@],
        Framework::Micronaut => seq!["micronaut"@, "io.micronaut"@],
        Framework::JakartaEE => seq!["jakarta.ee"@, "javax.servlet"@],
        Framework::AspNetCore => seq!["Microsoft.AspNetCore"@],
        Framework::Blazor => seq!["Microsoft.AspNetCore.Components"@],
        Framework::Gin => seq!["github.com/gin-gonic/gin"@],
        Framework::Echo => seq!["github.com/labstack/echo"@],
        Framework::Fiber => seq!["github.com/gofiber/fiber"@],
        Framework::Chi => seq!["github.com/go-chi/chi"@],
        Framework::ActixWeb => seq!["actix-web"@],
        Framework::Axum => seq!["axum"@],
        Framework::Rocket => seq!["rocket"@],
        Framework::Warp => seq!["warp"@],
        Framework::Laravel => seq!["laravel/framework"@],
        Framework::Symfony => seq!["symfony/framework-bundle"@],
        Framework::Jest => seq!["jest"@],
        Framework::Mocha => seq!["mocha"@],
        Framework::Pytest => seq!["pytest"@],
        Framework::RSpec => seq!["rspec"@],
        Framework::JUnit => seq!["junit"@, "org.junit"@],
    }
}

/// The paths whose presence reveals a framework.
pub open spec fn detection_files_spec(f: Framework) -> Seq<Seq<char>> {
    match f {
        Framework::React => Seq::empty(),
        Framework::NextJs => seq!["next.config.js"@, "next.config.mjs"@, "next.config.ts"@],
        Framework::Vue => Seq::empty(),
        Framework::NuxtJs => seq!["nuxt.config.js"@, "nuxt.config.ts"@],
        Framework::Angular => seq!["angular.json"@, ".angular.json"@],
        Framework::Svelte => seq!["svelte.config.js"@],
        Framework::Express => Seq::empty(),
        Framework::NestJs => Seq::empty(),
        Framework::Fastify => Seq::empty(),
        Framework::Django => seq!["manage.py"@, "settings.py"@],
        Framework::Flask => seq!["app.py"@, "wsgi.py"@],
        Framework::FastAPI => Seq::empty(),
        Framework::Pyramid => Seq::empty(),
        Framework::Tornado => Seq::empty(),
        Framework::Rails => seq!["config/application.rb"@, "Gemfile"@],
        Framework::Sinatra => Seq::empty(),
        Framework::Hanami => Seq::empty(),
        Framework::SpringBoot => seq!["application.properties"@, "application.yml"@],
        Framework::Quarkus => seq!["application.properties"@],
        Framework::Micronaut => Seq::empty(),
        Framework::JakartaEE => Seq::empty(),
        Framework::AspNetCore => Seq::empty(),
        Framework::Blazor => Seq::empty(),
        Framework::Gin => Seq::empty(),
        Framework::Echo => Seq::empty(),
        Framework::Fiber => Seq::empty(),
        Framework::Chi => Seq::empty(),
        Framework::ActixWeb => Seq::empty(),
        Framework::Axum => Seq::empty(),
        Framework::Rocket => Seq::empty(),
        Framework::Warp => Seq::empty(),
        Framework::Laravel => seq!["artisan"@, "app/Http/Kernel.php"@],
        Framework::Symfony => Seq::empty(),
        Framework::Jest => Seq::empty(),
        Framework::Mocha => Seq::empty(),
        Framework::Pytest => Seq::empty(),
        Framework::RSpec => Seq::empty(),
        Framework::JUnit => Seq::empty(),
    }
}

/// All known frameworks, in declaration order.
pub open spec fn all_frameworks_spec() -> Seq<Framework> {
    seq![
        Framework::React,
        Framework::NextJs,
        Framework::Vue,
        Framework::NuxtJs,
        Framework::Angular,
        Framework::Svelte,
        Framework::Express,
        Framework::NestJs,
        Framework::Fastify,
        Framework::Django,
        Framework::Flask,
        Framework::FastAPI,
        Framework::Pyramid,
        Framework::Tornado,
        Framework::Rails,
        Framework::Sinatra,
        Framework::Hanami,
        Framework::SpringBoot,
        Framework::Quarkus,
        Framework::Micronaut,
        Framework::JakartaEE,
        Framework::AspNetCore,
        Framework::Blazor,
        Framework::Gin,
        Framework::Echo,
        Framework::Fiber,
        Framework::Chi,
        Framework::ActixWeb,
        Framework::Axum,
        Framework::Rocket,
        Framework::Warp,
        Framework::Laravel,
        Framework::Symfony,
        Framework::Jest,
        Framework::Mocha,
        Framework::Pytest,
        Framework::RSpec,
        Framework::JUnit,
    ]
}


/// Framework category.
#[derive(Debug, Clone, Copy, PartialEq, Eq, Hash, Structural)]
pub enum FrameworkCategory {
    /// Frontend frameworks (React, Vue, Angular, etc.)
    Frontend,
    /// Backend frameworks (Express, Django, Spring, etc.)
    Backend,
    /// Full-stack frameworks (Next.js, Nuxt.js, etc.)
    Fullstack,
    /// Testing frameworks (Jest, Pytest, etc.)
    Testing,
}

/// Some package name occurs in the text.
pub open spec fn mentions_any(content: Seq<char>, pkgs: Seq<Seq<char>>) -> bool {
    exists|i: int| 0 <= i < pkgs.len() && contains(content, #[trigger] pkgs[i])
}

/// Some package name occurs in the text in double quotes.
pub open spec fn mentions_any_quoted(content: Seq<char>, pkgs: Seq<Seq<char>>) -> bool {
    exists|i: int|
        0 <= i < pkgs.len() && contains(content, seq!['"'] + #[trigger] pkgs[i] + seq!['"'])
}

/// Some package name occurs in the text, both lower-cased.
pub open spec fn mentions_any_lower(content: Seq<char>, pkgs: Seq<Seq<char>>) -> bool {
    exists|i: int| 0 <= i < pkgs.len() && contains(lowercase(content), lowercase(#[trigger] pkgs[i]))
}

/// The manifest at `path` is readable and mentions a package by `test`.
pub open spec fn manifest_mentions(
    repo: RepoSnapshot,
    path: Seq<char>,
    pkgs: Seq<Seq<char>>,
    test: spec_fn(Seq<char>, Seq<Seq<char>>) -> bool,
) -> bool {
    match repo.content_at(path) {
        Some(c) => test(c, pkgs),
        None => false,
    }
}

/// A framework is present when one of its detection paths exists, or when a
/// manifest names one of its packages: `package.json` in quotes; `Cargo.toml`,
/// `Gemfile`, `go.mod`, `pom.xml` and `composer.json` anywhere; the Python
/// manifests anywhere, ignoring case.
pub open spec fn framework_present(repo: RepoSnapshot, f: Framework) -> bool {
    let files = detection_files_spec(f);
    let pkgs = detection_packages_spec(f);
    ||| exists|i: int| 0 <= i < files.len() && repo.has_path(#[trigger] files[i])
    ||| pkgs.len() > 0 && {
        ||| manifest_mentions(repo, "package.json"@, pkgs, |c, p| mentions_any_quoted(c, p))
        ||| manifest_mentions(repo, "Cargo.toml"@, pkgs, |c, p| mentions_any(c, p))
        ||| manifest_mentions(repo, "requirements.txt"@, pkgs, |c, p| mentions_any_lower(c, p))
        ||| manifest_mentions(repo, "pyproject.toml"@, pkgs, |c, p| mentions_any_lower(c, p))
        ||| manifest_mentions(repo, "Gemfile"@, pkgs, |c, p| mentions_any(c, p))
        ||| manifest_mentions(repo, "go.mod"@, pkgs, |c, p| mentions_any(c, p))
        ||| manifest_mentions(repo, "pom.xml"@, pkgs, |c, p| mentions_any(c, p))
        ||| manifest_mentions(repo, "composer.json"@, pkgs, |c, p| mentions_any(c, p))
    }
}

/// The repository's `package.json` names the package in double quotes.
pub open spec fn mentions_in_package_json(repo: RepoSnapshot, package: Seq<char>) -> bool {
    match repo.content_at("package.json"@) {
        Some(c) => contains(c, seq!['"'] + package + seq!['"']),
        None => false,
    }
}

/// Law: a repository whose `package.json` names one of a framework's npm,
/// crate, pip, gem, Maven, Go or Composer package names in double quotes
/// uses that framework: `"express"` reveals Express, `"react"` or
/// `"react-dom"` React, and so on for each framework's names.
pub proof fn law_package_json_reveals_framework(repo: RepoSnapshot)
    ensures
        mentions_in_package_json(repo, "react"@) ==> framework_present(repo, Framework::React),
        mentions_in_package_json(repo, "react-dom"@) ==> framework_present(repo, Framework::React),
        mentions_in_package_json(repo, "next"@) ==> framework_present(repo, Framework::NextJs),
        mentions_in_package_json(repo, "vue"@) ==> framework_present(repo, Framework::Vue),
        mentions_in_package_json(repo, "nuxt"@) ==> framework_present(repo, Framework::NuxtJs),
        mentions_in_package_json(repo, "@angular/core"@) ==> framework_present(repo, Framework::Angular),
        mentions_in_package_json(repo, "svelte"@) ==> framework_present(repo, Framework::Svelte),
        mentions_in_package_json(repo, "express"@) ==> framework_present(repo, Framework::Express),
        mentions_in_package_json(repo, "@nestjs/core"@) ==> framework_present(repo, Framework::NestJs),
        mentions_in_package_json(repo, "fastify"@) ==> framework_present(repo, Framework::Fastify),
        mentions_in_package_json(repo, "django"@) ==> framework_present(repo, Framework::Django),
        mentions_in_package_json(repo, "Django"@) ==> framework_present(repo, Framework::Django),
        mentions_in_package_json(repo, "flask"@) ==> framework_present(repo, Framework::Flask),
        mentions_in_package_json(repo, "Flask"@) ==> framework_present(repo, Framework::Flask),
        mentions_in_package_json(repo, "fastapi"@) ==> framework_present(repo, Framework::FastAPI),
        mentions_in_package_json(repo, "pyramid"@) ==> framework_present(repo, Framework::Pyramid),
        mentions_in_package_json(repo, "tornado"@) ==> framework_present(repo, Framework::Tornado),
        mentions_in_package_json(repo, "rails"@) ==> framework_present(repo, Framework::Rails),
        mentions_in_package_json(repo, "sinatra"@) ==> framework_present(repo, Framework::Sinatra),
        mentions_in_package_json(repo, "hanami"@) ==> framework_present(repo, Framework::Hanami),
        mentions_in_package_json(repo, "spring-boot"@) ==> framework_present(repo, Framework::SpringBoot),
        mentions_in_package_json(repo, "org.springframework.boot"@) ==> framework_present(repo, Framework::SpringBoot),
        mentions_in_package_json(repo, "quarkus"@) ==> framework_present(repo, Framework::Quarkus),
        mentions_in_package_json(repo, "io.quarkus"@) ==> framework_present(repo, Framework::Quarkus),
        mentions_in_package_json(repo, "micronaut"@) ==> framework_present(repo, Framework::Micronaut),
        mentions_in_package_json(repo, "io.micronaut"@) ==> framework_present(repo, Framework::Micronaut),
        mentions_in_package_json(repo, "jakarta.ee"@) ==> framework_present(repo, Framework::JakartaEE),
        mentions_in_package_json(repo, "javax.servlet"@) ==> framework_present(repo, Framework::JakartaEE),
        mentions_in_package_json(repo, "Microsoft.AspNetCore"@) ==> framework_present(repo, Framework::AspNetCore),
        mentions_in_package_json(repo, "Microsoft.AspNetCore.Components"@) ==> framework_present(repo, Framework::Blazor),
        mentions_in_package_json(repo, "github.com/gin-gonic/gin"@) ==> framework_present(repo, Framework::Gin),
        mentions_in_package_json(repo, "github.com/labstack/echo"@) ==> framework_present(repo, Framework::Echo),
        mentions_in_package_json(repo, "github.com/gofiber/fiber"@) ==> framework_present(repo, Framework::Fiber),
        mentions_in_package_json(repo, "github.com/go-chi/chi"@) ==> framework_present(repo, Framework::Chi),
        mentions_in_package_json(repo, "actix-web"@) ==> framework_present(repo, Framework::ActixWeb),
        mentions_in_package_json(repo, "axum"@) ==> framework_present(repo, Framework::Axum),
        mentions_in_package_json(repo, "rocket"@) ==> framework_present(repo, Framework::Rocket),
        mentions_in_package_json(repo, "warp"@) ==> framework_present(repo, Framework::Warp),
        mentions_in_package_json(repo, "laravel/framework"@) ==> framework_present(repo, Framework::Laravel),
        mentions_in_package_json(repo, "symfony/framework-bundle"@) ==> framework_present(repo, Framework::Symfony),
        mentions_in_package_json(repo, "jest"@) ==> framework_present(repo, Framework::Jest),
        mentions_in_package_json(repo, "mocha"@) ==> framework_present(repo, Framework::Mocha),
        mentions_in_package_json(repo, "pytest"@) ==> framework_present(repo, Framework::Pytest),
        mentions_in_package_json(repo, "rspec"@) ==> framework_present(repo, Framework::RSpec),
        mentions_in_package_json(repo, "junit"@) ==> framework_present(repo, Framework::JUnit),
        mentions_in_package_json(repo, "org.junit"@) ==> framework_present(repo, Framework::JUnit),
{
    if mentions_in_package_json(repo, "react"@) {
        assert(detection_packages_spec(Framework::React)[0] == "react"@);
    }
    if mentions_in_package_json(repo, "react-dom"@) {
        assert(detection_packages_spec(Framework::React)[1] == "react-dom"@);
    }
    if mentions_in_package_json(repo, "next"@) {
        assert(detection_packages_spec(Framework::NextJs)[0] == "next"@);
    }
    if mentions_in_package_json(repo, "vue"@) {
        assert(detection_packages_spec(Framework::Vue)[0] == "vue"@);
    }
    if mentions_in_package_json(repo, "nuxt"@) {
        assert(detection_packages_spec(Framework::NuxtJs)[0] == "nuxt"@);
    }
    if mentions_in_package_json(repo, "@angular/core"@) {
        assert(detection_packages_spec(Framework::Angular)[0] == "@angular/core"@);
    }
    if mentions_in_package_json(repo, "svelte"@) {
        assert(detection_packages_spec(Framework::Svelte)[0] == "svelte"@);
    }
    if mentions_in_package_json(repo, "express"@) {
        assert(detection_packages_spec(Framework::Express)[0] == "express"@);
    }
    if mentions_in_package_json(repo, "@nestjs/core"@) {
        assert(detection_packages_spec(Framework::NestJs)[0] == "@nestjs/core"@);
    }
    if mentions_in_package_json(repo, "fastify"@) {
        assert(detection_packages_spec(Framework::Fastify)[0] == "fastify"@);
    }
    if mentions_in_package_json(repo, "django"@) {
        assert(detection_packages_spec(Framework::Django)[0] == "django"@);
    }
    if mentions_in_package_json(repo, "Django"@) {
        assert(detection_packages_spec(Framework::Django)[1] == "Django"@);
    }
    if mentions_in_package_json(repo, "flask"@) {
        assert(detection_packages_spec(Framework::Flask)[0] == "flask"@);
    }
    if mentions_in_package_json(repo, "Flask"@) {
        assert(detection_packages_spec(Framework::Flask)[1] == "Flask"@);
    }
    if mentions_in_package_json(repo, "fastapi"@) {
        assert(detection_packages_spec(Framework::FastAPI)[0] == "fastapi"@);
    }
    if mentions_in_package_json(repo, "pyramid"@) {
        assert(detection_packages_spec(Framework::Pyramid)[0] == "pyramid"@);
    }
    if mentions_in_package_json(repo, "tornado"@) {
        assert(detection_packages_spec(Framework::Tornado)[0] == "tornado"@);
    }
    if mentions_in_package_json(repo, "rails"@) {
        assert(detection_packages_spec(Framework::Rails)[0] == "rails"@);
    }
    if mentions_in_package_json(repo, "sinatra"@) {
        assert(detection_packages_spec(Framework::Sinatra)[0] == "sinatra"@);
    }
    if mentions_in_package_json(repo, "hanami"@) {
        assert(detection_packages_spec(Framework::Hanami)[0] == "hanami"@);
    }
    if mentions_in_package_json(repo, "spring-boot"@) {
        assert(detection_packages_spec(Framework::SpringBoot)[0] == "spring-boot"@);
    }
    if mentions_in_package_json(repo, "org.springframework.boot"@) {
        assert(detection_packages_spec(Framework::SpringBoot)[1] == "org.springframework.boot"@);
    }
    if mentions_in_package_json(repo, "quarkus"@) {
        assert(detection_packages_spec(Framework::Quarkus)[0] == "quarkus"@);
    }
    if mentions_in_package_json(repo, "io.quarkus"@) {
        assert(detection_packages_spec(Framework::Quarkus)[1] == "io.quarkus"@);
    }
    if mentions_in_package_json(repo, "micronaut"@) {
        assert(detection_packages_spec(Framework::Micronaut)[0] == "micronaut"@);
    }
    if mentions_in_package_json(repo, "io.micronaut"@) {
        assert(detection_packages_spec(Framework::Micronaut)[1] == "io.micronaut"@);
    }
    if mentions_in_package_json(repo, "jakarta.ee"@) {
        assert(detection_packages_spec(Framework::JakartaEE)[0] == "jakarta.ee"@);
    }
    if mentions_in_package_json(repo, "javax.servlet"@) {
        assert(detection_packages_spec(Framework::JakartaEE)[1] == "javax.servlet"@);
    }
    if mentions_in_package_json(repo, "Microsoft.AspNetCore"@) {
        assert(detection_packages_spec(Framework::AspNetCore)[0] == "Microsoft.AspNetCore"@);
    }
    if mentions_in_package_json(repo, "Microsoft.AspNetCore.Components"@) {
        assert(detection_packages_spec(Framework::Blazor)[0] == "Microsoft.AspNetCore.Components"@);
    }
    if mentions_in_package_json(repo, "github.com/gin-gonic/gin"@) {
        assert(detection_packages_spec(Framework::Gin)[0] == "github.com/gin-gonic/gin"@);
    }
    if mentions_in_package_json(repo, "github.com/labstack/echo"@) {
        assert(detection_packages_spec(Framework::Echo)[0] == "github.com/labstack/echo"@);
    }
    if mentions_in_package_json(repo, "github.com/gofiber/fiber"@) {
        assert(detection_packages_spec(Framework::Fiber)[0] == "github.com/gofiber/fiber"@);
    }
    if mentions_in_package_json(repo, "github.com/go-chi/chi"@) {
        assert(detection_packages_spec(Framework::Chi)[0] == "github.com/go-chi/chi"@);
    }
    if mentions_in_package_json(repo, "actix-web"@) {
        assert(detection_packages_spec(Framework::ActixWeb)[0] == "actix-web"@);
    }
    if mentions_in_package_json(repo, "axum"@) {
        assert(detection_packages_spec(Framework::Axum)[0] == "axum"@);
    }
    if mentions_in_package_json(repo, "rocket"@) {
        assert(detection_packages_spec(Framework::Rocket)[0] == "rocket"@);
    }
    if mentions_in_package_json(repo, "warp"@) {
        assert(detection_packages_spec(Framework::Warp)[0] == "warp"@);
    }
    if mentions_in_package_json(repo, "laravel/framework"@) {
        assert(detection_packages_spec(Framework::Laravel)[0] == "laravel/framework"@);
    }
    if mentions_in_package_json(repo, "symfony/framework-bundle"@) {
        assert(detection_packages_spec(Framework::Symfony)[0] == "symfony/framework-bundle"@);
    }
    if mentions_in_package_json(repo, "jest"@) {
        assert(detection_packages_spec(Framework::Jest)[0] == "jest"@);
    }
    if mentions_in_package_json(repo, "mocha"@) {
        assert(detection_packages_spec(Framework::Mocha)[0] == "mocha"@);
    }
    if mentions_in_package_json(repo, "pytest"@) {
        assert(detection_packages_spec(Framework::Pytest)[0] == "pytest"@);
    }
    if mentions_in_package_json(repo, "rspec"@) {
        assert(detection_packages_spec(Framework::RSpec)[0] == "rspec"@);
    }
    if mentions_in_package_json(repo, "junit"@) {
        assert(detection_packages_spec(Framework::JUnit)[0] == "junit"@);
    }
    if mentions_in_package_json(repo, "org.junit"@) {
        assert(detection_packages_spec(Framework::JUnit)[1] == "org.junit"@);
    }
}

/// The frameworks present in a repository, in declaration order.
pub open spec fn detected_frameworks(repo: RepoSnapshot) -> Seq<Framework> {
    all_frameworks_spec().filter(|f: Framework| framework_present(repo, f))
}

/// The first framework of a category.
pub open spec fn first_of_category(fs: Seq<Framework>, c: FrameworkCategory) -> Option<Framework>
    decreases fs.len(),
{
    if fs.len() == 0 {
        None
    } else if framework_category(fs[0]) == c {
        Some(fs[0])
    } else {
        first_of_category(fs.drop_first(), c)
    }
}

/// The first framework of a category has that category, and there is one
/// exactly when some framework has it.
pub proof fn lemma_first_of_category(fs: Seq<Framework>, c: FrameworkCategory)
    ensures
        first_of_category(fs, c) matches Some(f) ==> framework_category(f) == c && fs.contains(f),
        first_of_category(fs, c) is None <==> forall|i: int| 0 <= i < fs.len() ==> framework_category(#[trigger] fs[i]) != c,
    decreases fs.len(),
{
    if fs.len() > 0 {
        lemma_first_of_category(fs.drop_first(), c);
        if first_of_category(fs, c) is Some && framework_category(fs[0]) != c {
            let f = first_of_category(fs, c)->0;
            let k = choose|k: int| 0 <= k < fs.drop_first().len() && fs.drop_first()[k] == f;
            assert(fs[k + 1] == f);
        }
        if framework_category(fs[0]) != c {
            assert forall|i: int| 0 <= i < fs.len() && framework_category(#[trigger] fs[i]) == c implies
                first_of_category(fs, c) is Some by {
                assert(fs.drop_first()[i - 1] == fs[i]);
            }
        } else {
            assert(fs.contains(fs[0]));
        }
    }
}

/// Law: a full-stack framework, when one is detected, is the primary one;
/// else a backend one, when one is detected.
pub proof fn law_primary_prefers_fullstack(fs: Seq<Framework>)
    ensures
        (exists|i: int| 0 <= i < fs.len() && framework_category(#[trigger] fs[i]) == FrameworkCategory::Fullstack)
            ==> (primary_framework(fs) matches Some(f) && framework_category(f) == FrameworkCategory::Fullstack),
        (forall|i: int| 0 <= i < fs.len() ==> framework_category(#[trigger] fs[i]) != FrameworkCategory::Fullstack)
            && (exists|i: int| 0 <= i < fs.len() && framework_category(#[trigger] fs[i]) == FrameworkCategory::Backend)
            ==> (primary_framework(fs) matches Some(f) && framework_category(f) == FrameworkCategory::Backend),
{
    lemma_first_of_category(fs, FrameworkCategory::Fullstack);
    lemma_first_of_category(fs, FrameworkCategory::Backend);
}

/// The primary framework: the first full-stack one, else the first backend
/// one, else the first frontend one, else the first one.
pub open spec fn primary_framework(fs: Seq<Framework>) -> Option<Framework> {
    match first_of_category(fs, FrameworkCategory::Fullstack) {
        Some(f) => Some(f),
        None => match first_of_category(fs, FrameworkCategory::Backend) {
            Some(f) => Some(f),
            None => match first_of_category(fs, FrameworkCategory::Frontend) {
                Some(f) => Some(f),
                None => if fs.len() > 0 {
                    Some(fs[0])
                } else {
                    None
                },
            },
        },
    }
}

/// Whether some package name occurs in the text.
fn mentions_any_exec(content: &str, pkgs: &Vec<&'static str>) -> (r: bool)
    ensures
        r == mentions_any(content@, str_views(pkgs@)),
{
    let mut i: usize = 0;
    while i < pkgs.len()
        invariant
            0 <= i <= pkgs.len(),
            forall|j: int| 0 <= j < i ==> !contains(content@, #[trigger] str_views(pkgs@)[j]),
        decreases pkgs.len() - i,
    {
        assert(str_views(pkgs@)[i as int] == pkgs@[i as int]@);
        if str_contains(content, pkgs[i]) {
            return true;
        }
        i = i + 1;
    }
    false
}

/// Whether some package name occurs in the text in double quotes.
fn mentions_any_quoted_exec(content: &str, pkgs: &Vec<&'static str>) -> (r: bool)
    ensures
        r == mentions_any_quoted(content@, str_views(pkgs@)),
{
    let c = crate::text::chars_of(content);
    let q = vec!['"'];
    assert(q@ =~= seq!['"']);
    let mut i: usize = 0;
    while i < pkgs.len()
        invariant
            0 <= i <= pkgs.len(),
            c@ == content@,
            q@ == seq!['"'],
            forall|j: int|
                0 <= j < i ==> !contains(content@, seq!['"'] + #[trigger] str_views(pkgs@)[j] + seq!['"']),
        decreases pkgs.len() - i,
    {
        assert(str_views(pkgs@)[i as int] == pkgs@[i as int]@);
        let pat = crate::scan::concat_chars(
            &crate::scan::concat_chars(&q, &crate::text::chars_of(pkgs[i])),
            &q,
        );
        if crate::text::find_exec(&c, &pat).is_some() {
            return true;
        }
        i = i + 1;
    }
    false
}

/// Whether some package name occurs in the text, both lower-cased.
fn mentions_any_lower_exec(content: &str, pkgs: &Vec<&'static str>) -> (r: bool)
    ensures
        r == mentions_any_lower(content@, str_views(pkgs@)),
{
    let lower = to_lowercase(content);
    let mut i: usize = 0;
    while i < pkgs.len()
        invariant
            0 <= i <= pkgs.len(),
            lower@ == lowercase(content@),
            forall|j: int|
                0 <= j < i ==> !contains(lowercase(content@), lowercase(#[trigger] str_views(pkgs@)[j])),
        decreases pkgs.len() - i,
    {
        assert(str_views(pkgs@)[i as int] == pkgs@[i as int]@);
        let p = to_lowercase(pkgs[i]);
        if str_contains(lower.as_str(), p.as_str()) {
            return true;
        }
        i = i + 1;
    }
    false
}

/// Check if a specific framework is present.
pub fn check_framework(repo: &RepoSnapshot, framework: Framework) -> (r: bool)
    ensures
        r == framework_present(*repo, framework),
{
    let files = framework.detection_files();
    let mut i: usize = 0;
    while i < files.len()
        invariant
            0 <= i <= files.len(),
            str_views(files@) == detection_files_spec(framework),
            forall|j: int| 0 <= j < i ==> !repo.has_path(#[trigger] str_views(files@)[j]),
        decreases files.len() - i,
    {
        assert(str_views(files@)[i as int] == files@[i as int]@);
        if repo.path_exists(files[i]) {
            return true;
        }
        i = i + 1;
    }
    let packages = framework.detection_packages();
    if packages.len() == 0 {
        return false;
    }
    match repo.content("package.json") {
        Some(c) => {
            if mentions_any_quoted_exec(c.as_str(), &packages) {
                return true;
            }
        },
        None => {},
    }
    match repo.content("Cargo.toml") {
        Some(c) => {
            if mentions_any_exec(c.as_str(), &packages) {
                return true;
            }
        },
        None => {},
    }
    match repo.content("requirements.txt") {
        Some(c) => {
            if mentions_any_lower_exec(c.as_str(), &packages) {
                return true;
            }
        },
        None => {},
    }
    match repo.content("pyproject.toml") {
        Some(c) => {
            if mentions_any_lower_exec(c.as_str(), &packages) {
                return true;
            }
        },
        None => {},
    }
    match repo.content("Gemfile") {
        Some(c) => {
            if mentions_any_exec(c.as_str(), &packages) {
                return true;
            }
        },
        None => {},
    }
    match repo.content("go.mod") {
        Some(c) => {
            if mentions_any_exec(c.as_str(), &packages) {
                return true;
            }
        },
        None => {},
    }
    match repo.content("pom.xml") {
        Some(c) => {
            if mentions_any_exec(c.as_str(), &packages) {
                return true;
            }
        },
        None => {},
    }
    match repo.content("composer.json") {
        Some(c) => {
            if mentions_any_exec(c.as_str(), &packages) {
                return true;
            }
        },
        None => {},
    }
    false
}

/// Whether the list holds the framework.
pub fn contains_framework(v: &Vec<Framework>, f: Framework) -> (r: bool)
    ensures
        r == v@.contains(f),
{
    let mut i: usize = 0;
    while i < v.len()
        invariant
            0 <= i <= v.len(),
            forall|j: int| 0 <= j < i ==> v@[j] != f,
        decreases v.len() - i,
    {
        if v[i] == f {
            return true;
        }
        i = i + 1;
    }
    false
}

/// Whether the list holds the category.
pub fn contains_category(v: &Vec<FrameworkCategory>, c: FrameworkCategory) -> (r: bool)
    ensures
        r == v@.contains(c),
{
    let mut i: usize = 0;
    while i < v.len()
        invariant
            0 <= i <= v.len(),
            forall|j: int| 0 <= j < i ==> v@[j] != c,
        decreases v.len() - i,
    {
        if v[i] == c {
            return true;
        }
        i = i + 1;
    }
    false
}

/// Filter repositories by frameworks. Each list holds an item at most once.
#[derive(Debug, Clone)]
pub struct FrameworkFilter {
    /// Required frameworks.
    pub required: Vec<Framework>,
    /// Excluded frameworks.
    pub excluded: Vec<Framework>,
    /// Required categories.
    pub required_categories: Vec<FrameworkCategory>,
}

/// `s` with `x` added at the end unless it is already there.
pub open spec fn set_insert<A>(s: Seq<A>, x: A) -> Seq<A> {
    if s.contains(x) {
        s
    } else {
        s.push(x)
    }
}

/// The detected frameworks satisfy the filter: all required ones are there,
/// no excluded one is, and each required category has a framework.
pub open spec fn framework_filter_accepts(f: FrameworkFilter, det: Seq<Framework>) -> bool {
    &&& forall|i: int| 0 <= i < f.required@.len() ==> det.contains(#[trigger] f.required@[i])
    &&& forall|i: int| 0 <= i < f.excluded@.len() ==> !det.contains(#[trigger] f.excluded@[i])
    &&& forall|i: int|
        0 <= i < f.required_categories@.len() ==> has_category(det, #[trigger] f.required_categories@[i])
}

/// Some framework of the list has the category.
pub open spec fn has_category(det: Seq<Framework>, c: FrameworkCategory) -> bool {
    exists|j: int| 0 <= j < det.len() && framework_category(det[j]) == c
}

impl FrameworkFilter {
    /// Create a new framework filter.
    pub fn new() -> (r: Self)
        ensures
            r.required@.len() == 0,
            r.excluded@.len() == 0,
            r.required_categories@.len() == 0,
    {
        FrameworkFilter { required: Vec::new(), excluded: Vec::new(), required_categories: Vec::new() }
    }

    /// Require a specific framework.
    pub fn uses(self, framework: Framework) -> (r: Self)
        ensures
            r.required@ == set_insert(self.required@, framework),
            r.excluded@ == self.excluded@,
            r.required_categories@ == self.required_categories@,
    {
        let mut s = self;
        if !contains_framework(&s.required, framework) {
            s.required.push(framework);
        }
        s
    }

    /// Exclude a specific framework.
    pub fn excludes(self, framework: Framework) -> (r: Self)
        ensures
            r.required@ == self.required@,
            r.excluded@ == set_insert(self.excluded@, framework),
            r.required_categories@ == self.required_categories@,
    {
        let mut s = self;
        if !contains_framework(&s.excluded, framework) {
            s.excluded.push(framework);
        }
        s
    }

    /// Require a framework category.
    pub fn category(self, category: FrameworkCategory) -> (r: Self)
        ensures
            r.required@ == self.required@,
            r.excluded@ == self.excluded@,
            r.required_categories@ == set_insert(self.required_categories@, category),
    {
        let mut s = self;
        if !contains_category(&s.required_categories, category) {
            s.required_categories.push(category);
        }
        s
    }

    /// Check if the detected frameworks satisfy this filter.
    pub fn accepts(&self, detected: &FrameworkInfo) -> (r: bool)
        ensures
            r == framework_filter_accepts(*self, detected.frameworks@),
    {
        let mut i: usize = 0;
        while i < self.required.len()
            invariant
                0 <= i <= self.required.len(),
                forall|j: int| 0 <= j < i ==> detected.frameworks@.contains(#[trigger] self.required@[j]),
            decreases self.required.len() - i,
        {
            if !contains_framework(&detected.frameworks, self.required[i]) {
                return false;
            }
            i = i + 1;
        }
        let mut e: usize = 0;
        while e < self.excluded.len()
            invariant
                0 <= e <= self.excluded.len(),
                forall|j: int|
                    0 <= j < self.required@.len() ==> detected.frameworks@.contains(
                        #[trigger] self.required@[j],
                    ),
                forall|j: int| 0 <= j < e ==> !detected.frameworks@.contains(#[trigger] self.excluded@[j]),
            decreases self.excluded.len() - e,
        {
            if contains_framework(&detected.frameworks, self.excluded[e]) {
                return false;
            }
            e = e + 1;
        }
        let mut c: usize = 0;
        while c < self.required_categories.len()
            invariant
                0 <= c <= self.required_categories.len(),
                forall|j: int|
                    0 <= j < self.required@.len() ==> detected.frameworks@.contains(
                        #[trigger] self.required@[j],
                    ),
                forall|j: int|
                    0 <= j < self.excluded@.len() ==> !detected.frameworks@.contains(
                        #[trigger] self.excluded@[j],
                    ),
                forall|j: int|
                    0 <= j < c ==> has_category(detected.frameworks@, #[trigger] self.required_categories@[j]),
            decreases self.required_categories.len() - c,
        {
            let cat = self.required_categories[c];
            let mut k: usize = 0;
            let mut found = false;
            while k < detected.frameworks.len()
                invariant
                    0 <= k <= detected.frameworks.len(),
                    c < self.required_categories@.len(),
                    cat == self.required_categories@[c as int],
                    found ==> exists|m: int|
                        0 <= m < detected.frameworks@.len() && framework_category(detected.frameworks@[m]) == cat,
                    !found ==> forall|m: int| 0 <= m < k ==> framework_category(detected.frameworks@[m]) != cat,
                decreases detected.frameworks.len() - k,
            {
                if detected.frameworks[k].category() == cat {
                    found = true;
                }
                k = k + 1;
            }
            if !found {
                return false;
            }
            c = c + 1;
        }
        true
    }

    /// Check if a repository matches this filter.
    pub fn matches(&self, repo: &RepoSnapshot) -> (r: bool)
        ensures
            r == framework_filter_accepts(*self, detected_frameworks(*repo)),
    {
        let detected = FrameworkInfo::detect(repo);
        self.accepts(&detected)
    }
}

/// Information about detected frameworks.
#[derive(Debug, Clone)]
pub struct FrameworkInfo {
    /// Detected frameworks, each once.
    pub frameworks: Vec<Framework>,
    /// Primary framework (most likely main one).
    pub primary: Option<Framework>,
}

impl FrameworkInfo {
    /// Determine the primary framework: full-stack over backend over frontend,
    /// the earliest of each.
    pub fn determine_primary(frameworks: &Vec<Framework>) -> (r: Option<Framework>)
        ensures
            r == primary_framework(frameworks@),
    {
        match first_of_category_exec(frameworks, FrameworkCategory::Fullstack) {
            Some(f) => Some(f),
            None => match first_of_category_exec(frameworks, FrameworkCategory::Backend) {
                Some(f) => Some(f),
                None => match first_of_category_exec(frameworks, FrameworkCategory::Frontend) {
                    Some(f) => Some(f),
                    None => if frameworks.len() > 0 {
                        Some(frameworks[0])
                    } else {
                        None
                    },
                },
            },
        }
    }

    /// Detect frameworks in a repository.
    pub fn detect(repo: &RepoSnapshot) -> (r: Self)
        ensures
            r.frameworks@ == detected_frameworks(*repo),
            r.primary == primary_framework(r.frameworks@),
    {
        let all = all_frameworks();
        let ghost pred = |f: Framework| framework_present(*repo, f);
        let mut frameworks: Vec<Framework> = Vec::new();
        let mut i: usize = 0;
        while i < all.len()
            invariant
                0 <= i <= all.len(),
                all@ == all_frameworks_spec(),
                pred == (|f: Framework| framework_present(*repo, f)),
                frameworks@ == all@.take(i as int).filter(pred),
            decreases all.len() - i,
        {
            proof {
                reveal(Seq::filter);
            }
            assert(all@.take(i + 1).drop_last() =~= all@.take(i as int));
            assert(all@.take(i + 1).last() == all@[i as int]);
            let ghost before = frameworks@;
            if check_framework(repo, all[i]) {
                frameworks.push(all[i]);
                assert(pred(all@[i as int]));
                assert(frameworks@ == before.push(all@[i as int]));
            } else {
                assert(!pred(all@[i as int]));
            }
            i = i + 1;
        }
        assert(all@.take(all.len() as int) =~= all@);
        let primary = Self::determine_primary(&frameworks);
        FrameworkInfo { frameworks, primary }
    }

    /// Check if a framework is detected.
    pub fn has(&self, framework: Framework) -> (r: bool)
        ensures
            r == self.frameworks@.contains(framework),
    {
        contains_framework(&self.frameworks, framework)
    }

    /// Get frameworks by category, in detection order.
    pub fn by_category(&self, category: FrameworkCategory) -> (r: Vec<Framework>)
        ensures
            r@ == self.frameworks@.filter(|f: Framework| framework_category(f) == category),
    {
        let ghost pred = |f: Framework| framework_category(f) == category;
        let mut r: Vec<Framework> = Vec::new();
        let mut i: usize = 0;
        while i < self.frameworks.len()
            invariant
                0 <= i <= self.frameworks.len(),
                pred == (|f: Framework| framework_category(f) == category),
                r@ == self.frameworks@.take(i as int).filter(pred),
            decreases self.frameworks.len() - i,
        {
            proof {
                reveal(Seq::filter);
            }
            assert(self.frameworks@.take(i + 1).drop_last() =~= self.frameworks@.take(i as int));
            assert(self.frameworks@.take(i + 1).last() == self.frameworks@[i as int]);
            let ghost before = r@;
            if self.frameworks[i].category() == category {
                r.push(self.frameworks[i]);
                assert(pred(self.frameworks@[i as int]));
                assert(r@ == before.push(self.frameworks@[i as int]));
            } else {
                assert(!pred(self.frameworks@[i as int]));
            }
            i = i + 1;
        }
        assert(self.frameworks@.take(self.frameworks.len() as int) =~= self.frameworks@);
        r
    }
}

/// The first framework of a category, from index `start` on.
fn first_of_category_exec(fs: &Vec<Framework>, c: FrameworkCategory) -> (r: Option<Framework>)
    ensures
        r == first_of_category(fs@, c),
{
    let mut i: usize = 0;
    assert(fs@.skip(0) =~= fs@);
    while i < fs.len()
        invariant
            0 <= i <= fs.len(),
            first_of_category(fs@, c) == first_of_category(fs@.skip(i as int), c),
        decreases fs.len() - i,
    {
        assert(fs@.skip(i as int).drop_first() =~= fs@.skip(i + 1));
        if fs[i].category() == c {
            return Some(fs[i]);
        }
        i = i + 1;
    }
    None
}

impl Framework {
    /// Get the category of this framework.
    pub fn category(&self) -> (r: FrameworkCategory)
        ensures
            r == framework_category(*self),
    {
        match self {
            Framework::React => FrameworkCategory::Frontend,
            Framework::NextJs => FrameworkCategory::Fullstack,
            Framework::Vue => FrameworkCategory::Frontend,
            Framework::NuxtJs => FrameworkCategory::Fullstack,
            Framework::Angular => FrameworkCategory::Frontend,
            Framework::Svelte => FrameworkCategory::Frontend,
            Framework::Express => FrameworkCategory::Backend,
            Framework::NestJs => FrameworkCategory::Backend,
            Framework::Fastify => FrameworkCategory::Backend,
            Framework::Django => FrameworkCategory::Backend,
            Framework::Flask => FrameworkCategory::Backend,
            Framework::FastAPI => FrameworkCategory::Backend,
            Framework::Pyramid => FrameworkCategory::Backend,
            Framework::Tornado => FrameworkCategory::Backend,
            Framework::Rails => FrameworkCategory::Backend,
            Framework::Sinatra => FrameworkCategory::Backend,
            Framework::Hanami => FrameworkCategory::Backend,
            Framework::SpringBoot => FrameworkCategory::Backend,
            Framework::Quarkus => FrameworkCategory::Backend,
            Framework::Micronaut => FrameworkCategory::Backend,
            Framework::JakartaEE => FrameworkCategory::Backend,
            Framework::AspNetCore => FrameworkCategory::Backend,
            Framework::Blazor => FrameworkCategory::Backend,
            Framework::Gin => FrameworkCategory::Backend,
            Framework::Echo => FrameworkCategory::Backend,
            Framework::Fiber => FrameworkCategory::Backend,
            Framework::Chi => FrameworkCategory::Backend,
            Framework::ActixWeb => FrameworkCategory::Backend,
            Framework::Axum => FrameworkCategory::Backend,
            Framework::Rocket => FrameworkCategory::Backend,
            Framework::Warp => FrameworkCategory::Backend,
            Framework::Laravel => FrameworkCategory::Backend,
            Framework::Symfony => FrameworkCategory::Backend,
            Framework::Jest => FrameworkCategory::Testing,
            Framework::Mocha => FrameworkCategory::Testing,
            Framework::Pytest => FrameworkCategory::Testing,
            Framework::RSpec => FrameworkCategory::Testing,
            Framework::JUnit => FrameworkCategory::Testing,
        }
    }

    /// Get the primary language for this framework.
    pub fn language(&self) -> (r: &'static str)
        ensures
            r@ == framework_language(*self),
    {
        match self {
            Framework::React => "javascript",
            Framework::NextJs => "javascript",
            Framework::Vue => "javascript",
            Framework::NuxtJs => "javascript",
            Framework::Angular => "javascript",
            Framework::Svelte => "javascript",
            Framework::Express => "javascript",
            Framework::NestJs => "javascript",
            Framework::Fastify => "javascript",
            Framework::Django => "python",
            Framework::Flask => "python",
            Framework::FastAPI => "python",
            Framework::Pyramid => "python",
            Framework::Tornado => "python",
            Framework::Rails => "ruby",
            Framework::Sinatra => "ruby",
            Framework::Hanami => "ruby",
            Framework::SpringBoot => "java",
            Framework::Quarkus => "java",
            Framework::Micronaut => "java",
            Framework::JakartaEE => "java",
            Framework::AspNetCore => "csharp",
            Framework::Blazor => "csharp",
            Framework::Gin => "go",
            Framework::Echo => "go",
            Framework::Fiber => "go",
            Framework::Chi => "go",
            Framework::ActixWeb => "rust",
            Framework::Axum => "rust",
            Framework::Rocket => "rust",
            Framework::Warp => "rust",
            Framework::Laravel => "php",
            Framework::Symfony => "php",
            Framework::Jest => "javascript",
            Framework::Mocha => "javascript",
            Framework::Pytest => "python",
            Framework::RSpec => "ruby",
            Framework::JUnit => "java",
        }
    }

    /// Get the package names to detect this framework.
    pub fn detection_packages(&self) -> (r: Vec<&'static str>)
        ensures
            str_views(r@) == detection_packages_spec(*self),
    {
        let r = match self {
            Framework::React => vec!["react", "react-dom"],
            Framework::NextJs => vec!["next"],
            Framework::Vue => vec!["vue"],
            Framework::NuxtJs => vec!["nuxt"],
            Framework::Angular => vec!["@angular/core"],
            Framework::Svelte => vec!["svelte"],
            Framework::Express => vec!["express"],
            Framework::NestJs => vec!["@nestjs/core"],
            Framework::Fastify => vec!["fastify"],
            Framework::Django => vec!["django", "Django"],
            Framework::Flask => vec!["flask", "Flask"],
            Framework::FastAPI => vec!["fastapi"],
            Framework::Pyramid => vec!["pyramid"],
            Framework::Tornado => vec!["tornado"],
            Framework::Rails => vec!["rails"],
            Framework::Sinatra => vec!["sinatra"],
            Framework::Hanami => vec!["hanami"],
            Framework::SpringBoot => vec!["spring-boot", "org.springframework.boot"],
            Framework::Quarkus => vec!["quarkus", "io.quarkus"],
            Framework::Micronaut => vec!["micronaut", "io.micronaut"],
            Framework::JakartaEE => vec!["jakarta.ee", "javax.servlet"],
            Framework::AspNetCore => vec!["Microsoft.AspNetCore"],
            Framework::Blazor => vec!["Microsoft.AspNetCore.Components"],
            Framework::Gin => vec!["github.com/gin-gonic/gin"],
            Framework::Echo => vec!["github.com/labstack/echo"],
            Framework::Fiber => vec!["github.com/gofiber/fiber"],
            Framework::Chi => vec!["github.com/go-chi/chi"],
            Framework::ActixWeb => vec!["actix-web"],
            Framework::Axum => vec!["axum"],
            Framework::Rocket => vec!["rocket"],
            Framework::Warp => vec!["warp"],
            Framework::Laravel => vec!["laravel/framework"],
            Framework::Symfony => vec!["symfony/framework-bundle"],
            Framework::Jest => vec!["jest"],
            Framework::Mocha => vec!["mocha"],
            Framework::Pytest => vec!["pytest"],
            Framework::RSpec => vec!["rspec"],
            Framework::JUnit => vec!["junit", "org.junit"],
        };
        proof {
            assert(str_views(r@) =~= detection_packages_spec(*self));
        }
        r
    }

    /// Get file patterns to detect this framework.
    pub fn detection_files(&self) -> (r: Vec<&'static str>)
        ensures
            str_views(r@) == detection_files_spec(*self),
    {
        let r = match self {
            Framework::React => Vec::new(),
            Framework::NextJs => vec!["next.config.js", "next.config.mjs", "next.config.ts"],
            Framework::Vue => Vec::new(),
            Framework::NuxtJs => vec!["nuxt.config.js", "nuxt.config.ts"],
            Framework::Angular => vec!["angular.json", ".angular.json"],
            Framework::Svelte => vec!["svelte.config.js"],
            Framework::Express => Vec::new(),
            Framework::NestJs => Vec::new(),
            Framework::Fastify => Vec::new(),
            Framework::Django => vec!["manage.py", "settings.py"],
            Framework::Flask => vec!["app.py", "wsgi.py"],
            Framework::FastAPI => Vec::new(),
            Framework::Pyramid => Vec::new(),
            Framework::Tornado => Vec::new(),
            Framework::Rails => vec!["config/application.rb", "Gemfile"],
            Framework::Sinatra => Vec::new(),
            Framework::Hanami => Vec::new(),
            Framework::SpringBoot => vec!["application.properties", "application.yml"],
            Framework::Quarkus => vec!["application.properties"],
            Framework::Micronaut => Vec::new(),
            Framework::JakartaEE => Vec::new(),
            Framework::AspNetCore => Vec::new(),
            Framework::Blazor => Vec::new(),
            Framework::Gin => Vec::new(),
            Framework::Echo => Vec::new(),
            Framework::Fiber => Vec::new(),
            Framework::Chi => Vec::new(),
            Framework::ActixWeb => Vec::new(),
            Framework::Axum => Vec::new(),
            Framework::Rocket => Vec::new(),
            Framework::Warp => Vec::new(),
            Framework::Laravel => vec!["artisan", "app/Http/Kernel.php"],
            Framework::Symfony => Vec::new(),
            Framework::Jest => Vec::new(),
            Framework::Mocha => Vec::new(),
            Framework::Pytest => Vec::new(),
            Framework::RSpec => Vec::new(),
            Framework::JUnit => Vec::new(),
        };
        proof {
            assert(str_views(r@) =~= detection_files_spec(*self));
        }
        r
    }
}

/// Get all known frameworks.
pub fn all_frameworks() -> (r: Vec<Framework>)
    ensures
        r@ == all_frameworks_spec(),
{
    let r = vec![
        Framework::React,
        Framework::NextJs,
        Framework::Vue,
        Framework::NuxtJs,
        Framework::Angular,
        Framework::Svelte,
        Framework::Express,
        Framework::NestJs,
        Framework::Fastify,
        Framework::Django,
        Framework::Flask,
        Framework::FastAPI,
        Framework::Pyramid,
        Framework::Tornado,
        Framework::Rails,
        Framework::Sinatra,
        Framework::Hanami,
        Framework::SpringBoot,
        Framework::Quarkus,
        Framework::Micronaut,
        Framework::JakartaEE,
        Framework::AspNetCore,
        Framework::Blazor,
        Framework::Gin,
        Framework::Echo,
        Framework::Fiber,
        Framework::Chi,
        Framework::ActixWeb,
        Framework::Axum,
        Framework::Rocket,
        Framework::Warp,
        Framework::Laravel,
        Framework::Symfony,
        Framework::Jest,
        Framework::Mocha,
        Framework::Pytest,
        Framework::RSpec,
        Framework::JUnit,
    ];
    proof {
        assert(r@ =~= all_frameworks_spec());
    }
    r
}

} // verus!
