# rustpub

Turns a web page into an epub: the page is downloaded, an article extractor
cleans it, its images are downloaded, and everything is zipped into an epub.

- `src/` is the verified library (Verus): URL handling, file names and
  extensions, page metadata from `<meta>` tags, the choice of extractor,
  the extractor's command line, the epub's text, and the program's settings.
  HTML parsing and URL parsing are done by outside crates (`scraper`,
  `soup`, `kuchiki`, `readability`, `url`) behind trusted items whose
  contracts name their results.
- `app/` is the program around it: command line, network, files, templates
  and epub packaging.
- `tests/` runs the library on concrete pages and URLs.
