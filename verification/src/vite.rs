//! Ready-made Inertia configurations for vite-built front ends: a
//! [`Development`] builder pointing the page at a local dev server, and a
//! [`Production`] builder fed by the build manifest, whose asset version
//! is the hex SHA-1 of the manifest text.

use vstd::prelude::*;

use crate::config::{InertiaConfig, Layout};
use crate::text::{
    dec_text, hex_digit, html_escaped, push_char, push_html_escaped, push_str, push_u64_dec,
};

verus! {

/// Configuration for serving assets from a vite dev server.
pub struct Development {
    pub base: String,
    pub port: u16,
    pub main: String,
    pub lang: String,
    pub title: String,
    pub react: bool,
    pub https: bool,
}

/// The scheme a dev-server URL uses.
pub open spec fn scheme_text(https: bool) -> Seq<char> {
    if https {
        "https"@
    } else {
        "http"@
    }
}

/// A dev-server URL: scheme, localhost, the port, then the path.
pub open spec fn dev_url_text(https: bool, port: u16, path: Seq<char>) -> Seq<char> {
    scheme_text(https) + "://localhost:"@ + dec_text(port as nat) + path
}

/// The react-refresh preamble injected in the document head when react
/// support is on.
pub open spec fn react_preamble_text(https: bool, port: u16) -> Seq<char> {
    "\nimport RefreshRuntime from \""@ + dev_url_text(https, port, "/@react-refresh"@)
        + "\"\nRefreshRuntime.injectIntoGlobalHook(window)\nwindow.$RefreshReg$ = () => {}\nwindow.$RefreshSig$ = () => (type) => type\nwindow.__vite_plugin_react_preamble_installed__ = true\n"@
}

/// The head shared by every layout: language, title, charset and viewport.
pub open spec fn head_open_text(lang: Seq<char>, title: Seq<char>) -> Seq<char> {
    "<html lang=\""@ + html_escaped(lang) + "\"><head><title>"@ + html_escaped(title)
        + "</title><meta charset=\"utf-8\"><meta name=\"viewport\" content=\"width=device-width, initial-scale=1.0\">"@
}

/// The tail shared by every layout: the app mount point, whose `data-page`
/// attribute the render fills with the escaped page object.
pub open spec fn body_open_text() -> Seq<char> {
    "</head><body><div id=\"app\" data-page=\""@
}

/// The closing text after the embedded page object.
pub open spec fn layout_epilogue_text() -> Seq<char> {
    "\"></div></body></html>"@
}

/// A script tag loading a module from the dev server.
pub open spec fn module_script_text(https: bool, port: u16, path: Seq<char>) -> Seq<char> {
    "<script type=\"module\" src=\""@ + html_escaped(dev_url_text(https, port, path))
        + "\"></script>"@
}

/// The document before the embedded page object, for a dev-server layout.
pub open spec fn dev_prelude_text(d: Development) -> Seq<char> {
    head_open_text(d.lang@, d.title@) + (if d.react {
        "<script type=\"module\">"@ + react_preamble_text(d.https, d.port) + "</script>"@
    } else {
        Seq::<char>::empty()
    }) + module_script_text(d.https, d.port, d.base@ + "@vite/client"@) + module_script_text(
        d.https,
        d.port,
        d.base@ + d.main@,
    ) + body_open_text()
}

/// Appends `scheme://localhost:port` followed by `path`.
fn push_dev_url(out: &mut String, https: bool, port: u16, path: &str)
    ensures
        final(out)@ == old(out)@ + dev_url_text(https, port, path@),
{
    if https {
        push_str(out, "https");
    } else {
        push_str(out, "http");
    }
    push_str(out, "://localhost:");
    push_u64_dec(port as u64, out);
    push_str(out, path);
}

impl Development {
    /// The react-refresh preamble for this dev server.
    pub fn build_react_preamble(&self) -> (r: String)
        ensures
            r@ == react_preamble_text(self.https, self.port),
    {
        let mut out = String::new();
        push_str(&mut out, "\nimport RefreshRuntime from \"");
        push_dev_url(&mut out, self.https, self.port, "/@react-refresh");
        push_str(
            &mut out,
            "\"\nRefreshRuntime.injectIntoGlobalHook(window)\nwindow.$RefreshReg$ = () => {}\nwindow.$RefreshSig$ = () => (type) => type\nwindow.__vite_plugin_react_preamble_installed__ = true\n",
        );
        out
    }

    /// The asset base path. Must carry a slash before and after, as in
    /// `/app/`.
    pub fn base(self, base: &str) -> (r: Self)
        ensures
            r == (Development { base: r.base, ..self }),
            r.base@ == base@,
    {
        Development { base: base.to_owned(), ..self }
    }

    pub fn port(self, port: u16) -> (r: Self)
        ensures
            r == (Development { port, ..self }),
    {
        Development { port, ..self }
    }

    pub fn main(self, main: &str) -> (r: Self)
        ensures
            r == (Development { main: r.main, ..self }),
            r.main@ == main@,
    {
        Development { main: main.to_owned(), ..self }
    }

    pub fn lang(self, lang: &str) -> (r: Self)
        ensures
            r == (Development { lang: r.lang, ..self }),
            r.lang@ == lang@,
    {
        Development { lang: lang.to_owned(), ..self }
    }

    pub fn title(self, title: &str) -> (r: Self)
        ensures
            r == (Development { title: r.title, ..self }),
            r.title@ == title@,
    {
        Development { title: title.to_owned(), ..self }
    }

    /// Turns on react support: the react-refresh preamble is placed in the
    /// document head.
    pub fn react(self) -> (r: Self)
        ensures
            r == (Development { react: true, ..self }),
    {
        Development { react: true, ..self }
    }

    pub fn https(self, https: bool) -> (r: Self)
        ensures
            r == (Development { https, ..self }),
    {
        Development { https, ..self }
    }

    /// The finished configuration: no asset version (a dev server always
    /// serves fresh assets), and a layout loading the vite client and the
    /// main module from the dev server.
    pub fn into_config(self) -> (r: InertiaConfig)
        ensures
            r.version is None,
            r.layout.prelude@ == dev_prelude_text(self),
            r.layout.epilogue@ == layout_epilogue_text(),
    {
        let mut prelude = String::new();
        push_str(&mut prelude, "<html lang=\"");
        push_html_escaped(&mut prelude, self.lang.as_str());
        push_str(&mut prelude, "\"><head><title>");
        push_html_escaped(&mut prelude, self.title.as_str());
        push_str(
            &mut prelude,
            "</title><meta charset=\"utf-8\"><meta name=\"viewport\" content=\"width=device-width, initial-scale=1.0\">",
        );
        if self.react {
            push_str(&mut prelude, "<script type=\"module\">");
            let preamble = self.build_react_preamble();
            push_str(&mut prelude, preamble.as_str());
            push_str(&mut prelude, "</script>");
        }
        let mut vite_src = String::new();
        push_str(&mut vite_src, self.base.as_str());
        push_str(&mut vite_src, "@vite/client");
        push_module_script(&mut prelude, self.https, self.port, vite_src.as_str());
        let mut main_src = String::new();
        push_str(&mut main_src, self.base.as_str());
        push_str(&mut main_src, self.main.as_str());
        push_module_script(&mut prelude, self.https, self.port, main_src.as_str());
        push_str(&mut prelude, "</head><body><div id=\"app\" data-page=\"");
        proof {
            assert(prelude@ =~= dev_prelude_text(self));
        }
        let epilogue = "\"></div></body></html>".to_owned();
        InertiaConfig::new(None, Layout { prelude, epilogue })
    }
}

impl core::default::Default for Development {
    /// The stock dev-server setup: scheme http, port 5173, entry point
    /// `src/main.ts`, language `en`, title `Vite`, react off.
    fn default() -> (r: Development)
        ensures
            r.base@ == "/"@,
            r.port == 5173,
            r.main@ == "src/main.ts"@,
            r.lang@ == "en"@,
            r.title@ == "Vite"@,
            !r.react,
            !r.https,
    {
        Development {
            base: "/".to_owned(),
            port: 5173,
            main: "src/main.ts".to_owned(),
            lang: "en".to_owned(),
            title: "Vite".to_owned(),
            react: false,
            https: false,
        }
    }
}

/// Appends a script tag loading a module from the dev server.
fn push_module_script(out: &mut String, https: bool, port: u16, path: &str)
    ensures
        final(out)@ == old(out)@ + module_script_text(https, port, path@),
{
    push_str(out, "<script type=\"module\" src=\"");
    let mut url = String::new();
    push_dev_url(&mut url, https, port, path);
    push_html_escaped(out, url.as_str());
    push_str(out, "\"></script>");
}

/// What went wrong building a [`Production`] configuration.
#[derive(Debug)]
pub enum ViteError {
    /// The manifest file could not be read.
    ManifestMissing,
    /// The manifest has no entry under the requested name.
    EntryMissing(String),
    /// The text is not a JSON manifest in the expected shape.
    InvalidManifest,
}

impl ViteError {
    /// A short description of the failure.
    pub fn message(&self) -> (r: String)
        ensures
            match self {
                ViteError::ManifestMissing => r@ == "couldn't open manifest file"@,
                ViteError::EntryMissing(entry) => r@ == "manifest missing entry for "@ + entry@,
                ViteError::InvalidManifest => r@ == "manifest is not a JSON object of entries"@,
            },
    {
        match self {
            ViteError::ManifestMissing => "couldn't open manifest file".to_owned(),
            ViteError::EntryMissing(entry) => {
                let mut out = "manifest missing entry for ".to_owned();
                push_str(&mut out, entry.as_str());
                out
            },
            ViteError::InvalidManifest => "manifest is not a JSON object of entries".to_owned(),
        }
    }
}

/// One entry of a vite build manifest.
pub struct ManifestEntry {
    pub file: String,
    pub integrity: Option<String>,
    pub css: Option<Vec<String>>,
}

/// The SHA-1 digest of a text's UTF-8 bytes.
pub uninterp spec fn sha1_of(text: Seq<char>) -> Seq<u8>;

/// Relies on the sha1 crate (RustCrypto's Digest): the 20-byte SHA-1
/// digest of the text's UTF-8 bytes, a function of the text alone.
#[verifier::external_body]
fn sha1_digest(text: &str) -> (r: Vec<u8>)
    ensures
        r@ == sha1_of(text@),
        r@.len() == 20,
{
    <sha1::Sha1 as sha1::Digest>::digest(text.as_bytes()).to_vec()
}

/// The lowercase hex text of a run of bytes, high nibble first.
pub open spec fn hex_text(bytes: Seq<u8>) -> Seq<char>
    decreases bytes.len(),
{
    if bytes.len() == 0 {
        Seq::empty()
    } else {
        seq![
            hex_digit((bytes[0] >> 4) as nat),
            hex_digit((bytes[0] & 0x0f) as nat),
        ] + hex_text(bytes.drop_first())
    }
}

/// Relies on hex::encode: two lowercase hex digits per byte, high nibble
/// first.
#[verifier::external_body]
fn hex_encode(bytes: &Vec<u8>) -> (r: String)
    ensures
        r@ == hex_text(bytes@),
{
    hex::encode(bytes.as_slice())
}

/// What decoding a manifest and reading one entry yields: the entry's
/// `file`, `integrity` and `css` fields on success; `Err(true)` when the
/// manifest has no entry under the key; `Err(false)` when the text is not
/// a manifest.
pub uninterp spec fn manifest_entry_of(manifest: Seq<char>, key: Seq<char>) -> Result<
    (String, Option<String>, Option<Vec<String>>),
    bool,
>;

/// Relies on serde_json (from_str, Value::get, Value::as_str, from_value):
/// parses the manifest text as JSON and reads the entry under `key`. The
/// result is a function of the two texts alone.
#[verifier::external_body]
fn manifest_lookup(manifest: &str, key: &str) -> (r: Result<
    (String, Option<String>, Option<Vec<String>>),
    bool,
>)
    ensures
        r == manifest_entry_of(manifest@, key@),
{
    let parsed: serde_json::Value = serde_json::from_str(manifest).map_err(|_| false)?;
    let entry = parsed.get(key).ok_or(true)?;
    let file = entry.get("file").and_then(serde_json::Value::as_str).ok_or(false)?.to_string();
    let integrity = entry.get("integrity").and_then(serde_json::Value::as_str).map(str::to_string);
    let css = match entry.get("css") {
        None => None,
        Some(c) => Some(serde_json::from_value::<Vec<String>>(c.clone()).map_err(|_| false)?),
    };
    Ok((file, integrity, css))
}

/// One stylesheet link for a manifest css source.
pub open spec fn css_link_text(source: Seq<char>) -> Seq<char> {
    "<link rel=\"stylesheet\" href=\"/"@ + source + "\"/>"@
}

/// The stylesheet links for a manifest entry's css list, in order.
pub open spec fn css_links_text(sources: Seq<Seq<char>>) -> Seq<char>
    decreases sources.len(),
{
    if sources.len() == 0 {
        Seq::empty()
    } else {
        css_link_text(sources[0]) + css_links_text(sources.drop_first())
    }
}

/// Builds the stylesheet links for a css list.
fn build_css_links(sources: &Vec<String>) -> (r: String)
    ensures
        r@ == css_links_text(crate::partial::string_views(sources@)),
{
    let ghost views = crate::partial::string_views(sources@);
    let mut out = String::new();
    proof {
        assert(views.skip(0) =~= views);
    }
    let n = sources.len();
    let mut i: usize = 0;
    while i < n
        invariant
            n == sources@.len(),
            i <= n,
            views == crate::partial::string_views(sources@),
            views.len() == n,
            out@ + css_links_text(views.skip(i as int)) == css_links_text(views),
        decreases n - i,
    {
        push_str(&mut out, "<link rel=\"stylesheet\" href=\"/");
        push_str(&mut out, sources[i].as_str());
        push_str(&mut out, "\"/>");
        proof {
            assert(views.skip(i as int)[0] == sources@[i as int]@);
            assert(views.skip(i as int).drop_first() =~= views.skip(i + 1));
        }
        i = i + 1;
    }
    proof {
        assert(views.skip(n as int) =~= Seq::<Seq<char>>::empty());
    }
    out
}

/// Configuration for serving a vite production build: the main entry from
/// the build manifest, prebuilt stylesheet links, and the manifest's SHA-1
/// as the asset version.
pub struct Production {
    pub main: ManifestEntry,
    pub css: Option<String>,
    pub title: String,
    pub lang: String,
    /// Lowercase hex SHA-1 of the manifest text.
    pub version: String,
}

/// The document before the embedded page object, for a production layout.
pub open spec fn prod_prelude_text(p: Production) -> Seq<char> {
    head_open_text(p.lang@, p.title@) + (match p.main.integrity {
        Some(i) => "<script type=\"module\" src=\""@ + html_escaped(seq!['/'] + p.main.file@)
            + "\" integrity=\""@ + html_escaped(i@) + "\"></script>"@,
        None => "<script type=\"module\" src=\""@ + html_escaped(seq!['/'] + p.main.file@)
            + "\"></script>"@,
    }) + (match p.css {
        None => Seq::<char>::empty(),
        Some(c) => c@,
    }) + body_open_text()
}

impl Production {
    /// Reads the manifest text: looks up the main entry, prebuilds its
    /// stylesheet links, and fingerprints the whole text. Fails with
    /// `EntryMissing` when the manifest has no entry under `main`, and
    /// with `InvalidManifest` when the text does not decode.
    pub fn new_from_string(manifest_string: &str, main: &str) -> (r: Result<Production, ViteError>)
        ensures
            match manifest_entry_of(manifest_string@, main@) {
                Ok(entry) => r matches Ok(p) && {
                    &&& p.main.file == entry.0
                    &&& p.main.integrity == entry.1
                    &&& p.main.css == entry.2
                    &&& match entry.2 {
                        None => p.css is None,
                        Some(list) => p.css matches Some(links) && links@ == css_links_text(
                            crate::partial::string_views(list@),
                        ),
                    }
                    &&& p.title@ == "Vite"@
                    &&& p.lang@ == "en"@
                    &&& p.version@ == hex_text(sha1_of(manifest_string@))
                },
                Err(missing) => if missing {
                    r matches Err(e) && e matches ViteError::EntryMissing(k) && k@ == main@
                } else {
                    r matches Err(e) && e is InvalidManifest
                },
            },
    {
        match manifest_lookup(manifest_string, main) {
            Err(missing) => {
                if missing {
                    Err(ViteError::EntryMissing(main.to_owned()))
                } else {
                    Err(ViteError::InvalidManifest)
                }
            },
            Ok((file, integrity, css)) => {
                let links = match &css {
                    None => None,
                    Some(list) => Some(build_css_links(list)),
                };
                let digest = sha1_digest(manifest_string);
                let version = hex_encode(&digest);
                Ok(
                    Production {
                        main: ManifestEntry { file, integrity, css },
                        css: links,
                        title: "Vite".to_owned(),
                        lang: "en".to_owned(),
                        version,
                    },
                )
            },
        }
    }

    pub fn lang(self, lang: &str) -> (r: Self)
        ensures
            r == (Production { lang: r.lang, ..self }),
            r.lang@ == lang@,
    {
        Production { lang: lang.to_owned(), ..self }
    }

    pub fn title(self, title: &str) -> (r: Self)
        ensures
            r == (Production { title: r.title, ..self }),
            r.title@ == title@,
    {
        Production { title: title.to_owned(), ..self }
    }

    /// The finished configuration: the manifest fingerprint as the asset
    /// version, and a layout loading the built entry file and its
    /// stylesheets.
    pub fn into_config(self) -> (r: InertiaConfig)
        ensures
            r.version matches Some(v) && v == self.version,
            r.layout.prelude@ == prod_prelude_text(self),
            r.layout.epilogue@ == layout_epilogue_text(),
    {
        let mut prelude = String::new();
        push_str(&mut prelude, "<html lang=\"");
        push_html_escaped(&mut prelude, self.lang.as_str());
        push_str(&mut prelude, "\"><head><title>");
        push_html_escaped(&mut prelude, self.title.as_str());
        push_str(
            &mut prelude,
            "</title><meta charset=\"utf-8\"><meta name=\"viewport\" content=\"width=device-width, initial-scale=1.0\">",
        );
        let mut main_path = String::new();
        push_char(&mut main_path, '/');
        push_str(&mut main_path, self.main.file.as_str());
        push_str(&mut prelude, "<script type=\"module\" src=\"");
        push_html_escaped(&mut prelude, main_path.as_str());
        match &self.main.integrity {
            Some(integrity) => {
                push_str(&mut prelude, "\" integrity=\"");
                push_html_escaped(&mut prelude, integrity.as_str());
                push_str(&mut prelude, "\"></script>");
            },
            None => {
                push_str(&mut prelude, "\"></script>");
            },
        }
        match &self.css {
            None => {},
            Some(links) => {
                push_str(&mut prelude, links.as_str());
            },
        }
        push_str(&mut prelude, "</head><body><div id=\"app\" data-page=\"");
        proof {
            assert(prelude@ =~= prod_prelude_text(self));
        }
        let epilogue = "\"></div></body></html>".to_owned();
        InertiaConfig::new(Some(self.version), Layout { prelude, epilogue })
    }
}

} // verus!
