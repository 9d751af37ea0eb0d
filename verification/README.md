# tvrank

A library and command line tool for querying and ranking information about movies and
series from the IMDB data sets, written in Verus: the library's functions carry contracts
that Verus proves.

## Layout

- `src/` is the verified library:
  - `genre`, `title_type`, `title_id`, `rating`, `title_header` and `title`: the parts of a
    title, reading a title from a line of tab separated values, and the binary form in
    which titles are stored, with the law that reading a written title gives it back;
  - `import`: turning lines of the IMDB data into the binary forms of movies and series;
  - `db` and `service`: the databases of movies and series, loaded from binary forms and
    looked up by ID, by title and year, or by keywords, with the laws of what a lookup
    finds;
  - `search`, `keywords`, `cli`, `results`, `scan`, `print` and `update`: search strings,
    keyword matching, reading `TITLE (YYYY)`, ranking results, scanning directories, the
    texts of the output and when the databases are built anew;
  - `number`, `tsv`, `text`, `bytes` and `mem`: reading numbers, splitting columns, text
    helpers and memory sizes.
- `app/` is the command line tool around the library: arguments, downloads, files,
  directory walks and printing.
- `tests/` holds the tests of the library.
