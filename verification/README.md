# refactor_dsl

A library for multi-language code refactoring, verified with Verus: API
signature extraction and change detection between library versions, the
transforms that follow from changes, dependency, framework and language
discovery in repositories, repository filters, the per-repository codemod
run, unified diffs, and language-server positions, edits and installation.

- `src/` is the verified library. Its functions are verified against their
  contracts; laws that relate several functions are public proof functions
  named `law_*`. The calls into outside crates (tree-sitter, regex, similar,
  dirs) and a few std calls stand behind small trusted wrappers, each with a
  doc comment that says what its contract claims; callbacks that users
  supply (filter predicates, upgrade closures) are called with nothing
  claimed of their answers.
- `app/` is the command-line program and everything that does I/O: files,
  git, the GitHub API, language-server processes and downloads.
- `tests/` runs the library on concrete inputs.
