# rss-notifier

Watches the RSS feeds of a list of sites and sends an email when one of them has something new.
A small web server lets sites be added to the list.

- `src/` is the library, verified with Verus: which items of a feed are new (`feed`), what the
  email says (`email`, `templates`), how it is addressed and built (`mail`), the task that ties a
  check together (`task`), the list of sites (`rss_sites`, `site`), the configuration (`config`),
  the answers of the web server (`webserver`) and the command line (`cli`). `laws` states what
  holds of the notifier as a whole.
- `app/` is the program around it: files, network, mail server and web server. It does what the
  library asks for and tells it what happened.
- `tests/` runs the library on examples.

The program reads `cfg.toml` and keeps the sites in `sites_v2.json`, both in the working
directory. The templates and the style sheet are in `static/`: `email.hb`, `index.html` and
`98.css`.
