# hh

The core of a desktop and mobile assistant that talks to the Agnes model
site: its configuration, the choice of the newest models, the checks and
request plans of the chat, image and video adapters, the chat task's
progress events, and the layout of the application's storage.

- `src/` is the library, written in Verus: every function carries a
  contract, and the laws of the library (a read of the configuration cache
  gives back the last write, the model chosen for a family is the unique
  newest one, model names read back as the version they were made from,
  image and video models are never taken for text models, the business
  directories lie apart inside the data directory, no two chat tasks get
  the same identifier, a chat task sends at most one thinking event and
  then at most one closing event) are proof functions.
- `app/` is the shell around it: the commands that the front end invokes,
  the configuration file on disk, the platform's directories, the process
  cache behind a lock, and the calls to the model site.
- `tests/` runs the library on concrete values.
