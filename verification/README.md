# tmdbtag

An interactive command-line tool that organizes video files with the identifier and title
registered in The Movie Database (TMDB). The decisions of the tool are a verified library;
the terminal, the filesystem and the network are a thin program around it.

## Layout

- `src/` — the library, verified with Verus:
  - `text.rs`: Unicode whitespace trimming, ASCII casing, decimal text of numbers.
  - `language.rs`: the accepted TMDB locale tags and their canonical form.
  - `config.rs`: the startup configuration, the per-user store location, the saved
    fields, and the configuration wizard that decides which prompts to show.
  - `domain.rs`: TMDB identifiers, media types, episode references, search and detail
    values.
  - `tmdb/request.rs`: endpoints, query parameters, size limits and the mapping of
    transport failures and HTTP statuses to typed errors.
  - `tmdb/client.rs`: the configured client (credential, language, origin, timeout) and
    the URL of each request.
  - `tmdb/models.rs`: the mapping of TMDB responses into verified domain values.
  - `identify.rs`: the search, manual-identifier and episode flows.
  - `selection.rs`: the destination, source-folder and video selection flow.
  - `listing.rs`: the order in which folders and videos are listed.
  - `paths.rs`: the destination rules over path components (`.` and `..`, the source
    root, selected folders).
  - `workflow.rs`: selection checks, result ordering, and the configure-and-validate
    loop.
  - `error.rs`: typed errors and the exit-code policy (`2` for correctable input, `1`
    for runtime failures).
- `app/` — the program: argument parsing (clap), prompts (dialoguer), the configuration
  file (serde), directory listing, HTTP (reqwest), and error messages (thiserror). Each
  interactive loop performs the action a library flow returns and hands back the event.
- `tests/` — tests of the library on concrete values.
