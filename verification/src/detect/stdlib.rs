//! Standard library detection for several languages.
//!
//! A module is part of the standard library when it is on the language's
//! list of standard modules. For Node.js, a `node:` prefix names the same
//! built-in module.
use vstd::prelude::*;

use crate::detect::types::str_eq;
use crate::text::{chars_of, has_prefix, slice_range, starts_with_str, string_of};

verus! {

/// Supported languages for stdlib detection.
#[derive(Debug, Clone, Copy, PartialEq, Eq, Hash, Structural)]
pub enum StdlibLanguage {
    Python,
    /// Node.js
    JavaScript,
    Go,
    Rust,
}

/// The top-level modules of Python's standard library.
pub open spec fn python_stdlib() -> Seq<Seq<char>> {
    seq![
        "__future__"@, "abc"@, "aifc"@, "argparse"@, "array"@, "ast"@, "asynchat"@, "asyncio"@,
        "asyncore"@, "atexit"@, "audioop"@, "base64"@, "bdb"@, "binascii"@, "bisect"@, "builtins"@,
        "bz2"@, "calendar"@, "cgi"@, "cgitb"@, "chunk"@, "cmath"@, "cmd"@, "code"@, "codecs"@,
        "codeop"@, "collections"@, "colorsys"@, "compileall"@, "concurrent"@, "configparser"@,
        "contextlib"@, "contextvars"@, "copy"@, "copyreg"@, "cProfile"@, "crypt"@, "csv"@,
        "ctypes"@, "curses"@, "dataclasses"@, "datetime"@, "dbm"@, "decimal"@, "difflib"@, "dis"@,
        "doctest"@, "email"@, "encodings"@, "ensurepip"@, "enum"@, "errno"@, "faulthandler"@,
        "fcntl"@, "filecmp"@, "fileinput"@, "fnmatch"@, "fractions"@, "ftplib"@, "functools"@,
        "gc"@, "getopt"@, "getpass"@, "gettext"@, "glob"@, "graphlib"@, "grp"@, "gzip"@, "hashlib"@,
        "heapq"@, "hmac"@, "html"@, "http"@, "idlelib"@, "imaplib"@, "imghdr"@, "imp"@,
        "importlib"@, "inspect"@, "io"@, "ipaddress"@, "itertools"@, "json"@, "keyword"@,
        "lib2to3"@, "linecache"@, "locale"@, "logging"@, "lzma"@, "mailbox"@, "mailcap"@,
        "marshal"@, "math"@, "mimetypes"@, "mmap"@, "modulefinder"@, "msilib"@, "msvcrt"@,
        "multiprocessing"@, "netrc"@, "nis"@, "nntplib"@, "ntpath"@, "numbers"@, "opcode"@,
        "operator"@, "optparse"@, "os"@, "ossaudiodev"@, "pathlib"@, "pdb"@, "pickle"@,
        "pickletools"@, "pipes"@, "pkgutil"@, "platform"@, "plistlib"@, "poplib"@, "posix"@,
        "posixpath"@, "pprint"@, "profile"@, "pstats"@, "pty"@, "pwd"@, "py_compile"@, "pyclbr"@,
        "pydoc"@, "pyexpat"@, "queue"@, "quopri"@, "random"@, "re"@, "readline"@, "reprlib"@,
        "resource"@, "rlcompleter"@, "runpy"@, "sched"@, "secrets"@, "select"@, "selectors"@,
        "shelve"@, "shlex"@, "shutil"@, "signal"@, "site"@, "smtpd"@, "smtplib"@, "sndhdr"@,
        "socket"@, "socketserver"@, "spwd"@, "sqlite3"@, "sre_compile"@, "sre_constants"@,
        "sre_parse"@, "ssl"@, "stat"@, "statistics"@, "string"@, "stringprep"@, "struct"@,
        "subprocess"@, "sunau"@, "symtable"@, "sys"@, "sysconfig"@, "syslog"@, "tabnanny"@,
        "tarfile"@, "telnetlib"@, "tempfile"@, "termios"@, "textwrap"@, "this"@, "threading"@,
        "time"@, "timeit"@, "tkinter"@, "token"@, "tokenize"@, "tomllib"@, "trace"@, "traceback"@,
        "tracemalloc"@, "tty"@, "turtle"@, "turtledemo"@, "types"@, "typing"@, "unicodedata"@,
        "unittest"@, "urllib"@, "uu"@, "uuid"@, "venv"@, "warnings"@, "wave"@, "weakref"@,
        "webbrowser"@, "winreg"@, "winsound"@, "wsgiref"@, "xdrlib"@, "xml"@, "xmlrpc"@, "zipapp"@,
        "zipfile"@, "zipimport"@, "zlib"@, "zoneinfo"@,
    ]
}

/// The built-in modules of Node.js (without the `node:` prefix).
pub open spec fn node_builtins() -> Seq<Seq<char>> {
    seq![
        "assert"@, "assert/strict"@, "async_hooks"@, "buffer"@, "child_process"@, "cluster"@,
        "console"@, "constants"@, "crypto"@, "dgram"@, "diagnostics_channel"@, "dns"@,
        "dns/promises"@, "domain"@, "events"@, "fs"@, "fs/promises"@, "http"@, "http2"@, "https"@,
        "inspector"@, "inspector/promises"@, "module"@, "net"@, "os"@, "path"@, "path/posix"@,
        "path/win32"@, "perf_hooks"@, "process"@, "punycode"@, "querystring"@, "readline"@,
        "readline/promises"@, "repl"@, "stream"@, "stream/consumers"@, "stream/promises"@,
        "stream/web"@, "string_decoder"@, "sys"@, "timers"@, "timers/promises"@, "tls"@,
        "trace_events"@, "tty"@, "url"@, "util"@, "util/types"@, "v8"@, "vm"@, "wasi"@,
        "worker_threads"@, "zlib"@,
    ]
}

/// The packages of Go's standard library.
pub open spec fn go_stdlib() -> Seq<Seq<char>> {
    seq![
        "archive/tar"@, "archive/zip"@, "bufio"@, "bytes"@, "cmp"@, "compress/bzip2"@,
        "compress/flate"@, "compress/gzip"@, "compress/lzw"@, "compress/zlib"@, "container/heap"@,
        "container/list"@, "container/ring"@, "context"@, "crypto"@, "crypto/aes"@,
        "crypto/cipher"@, "crypto/des"@, "crypto/dsa"@, "crypto/ecdh"@, "crypto/ecdsa"@,
        "crypto/ed25519"@, "crypto/elliptic"@, "crypto/hmac"@, "crypto/md5"@, "crypto/rand"@,
        "crypto/rc4"@, "crypto/rsa"@, "crypto/sha1"@, "crypto/sha256"@, "crypto/sha512"@,
        "crypto/subtle"@, "crypto/tls"@, "crypto/x509"@, "crypto/x509/pkix"@, "database/sql"@,
        "database/sql/driver"@, "debug/buildinfo"@, "debug/dwarf"@, "debug/elf"@, "debug/gosym"@,
        "debug/macho"@, "debug/pe"@, "debug/plan9obj"@, "embed"@, "encoding"@, "encoding/ascii85"@,
        "encoding/asn1"@, "encoding/base32"@, "encoding/base64"@, "encoding/binary"@,
        "encoding/csv"@, "encoding/gob"@, "encoding/hex"@, "encoding/json"@, "encoding/pem"@,
        "encoding/xml"@, "errors"@, "expvar"@, "flag"@, "fmt"@, "go/ast"@, "go/build"@,
        "go/build/constraint"@, "go/constant"@, "go/doc"@, "go/doc/comment"@, "go/format"@,
        "go/importer"@, "go/parser"@, "go/printer"@, "go/scanner"@, "go/token"@, "go/types"@,
        "hash"@, "hash/adler32"@, "hash/crc32"@, "hash/crc64"@, "hash/fnv"@, "hash/maphash"@,
        "html"@, "html/template"@, "image"@, "image/color"@, "image/color/palette"@, "image/draw"@,
        "image/gif"@, "image/jpeg"@, "image/png"@, "index/suffixarray"@, "io"@, "io/fs"@,
        "io/ioutil"@, "iter"@, "log"@, "log/slog"@, "log/syslog"@, "maps"@, "math"@, "math/big"@,
        "math/bits"@, "math/cmplx"@, "math/rand"@, "math/rand/v2"@, "mime"@, "mime/multipart"@,
        "mime/quotedprintable"@, "net"@, "net/http"@, "net/http/cgi"@, "net/http/cookiejar"@,
        "net/http/fcgi"@, "net/http/httptest"@, "net/http/httptrace"@, "net/http/httputil"@,
        "net/http/pprof"@, "net/mail"@, "net/netip"@, "net/rpc"@, "net/rpc/jsonrpc"@, "net/smtp"@,
        "net/textproto"@, "net/url"@, "os"@, "os/exec"@, "os/signal"@, "os/user"@, "path"@,
        "path/filepath"@, "plugin"@, "reflect"@, "regexp"@, "regexp/syntax"@, "runtime"@,
        "runtime/cgo"@, "runtime/coverage"@, "runtime/debug"@, "runtime/metrics"@, "runtime/pprof"@,
        "runtime/race"@, "runtime/trace"@, "slices"@, "sort"@, "strconv"@, "strings"@, "sync"@,
        "sync/atomic"@, "syscall"@, "testing"@, "testing/fstest"@, "testing/iotest"@,
        "testing/quick"@, "testing/slogtest"@, "text/scanner"@, "text/tabwriter"@, "text/template"@,
        "text/template/parse"@, "time"@, "time/tzdata"@, "unicode"@, "unicode/utf16"@,
        "unicode/utf8"@, "unique"@, "unsafe"@, "weak"@,
    ]
}

/// The crates that ship with Rust, and the path roots that name no crate.
pub open spec fn rust_stdlib() -> Seq<Seq<char>> {
    seq![
        "std"@, "core"@, "alloc"@, "proc_macro"@, "test"@, "crate"@, "self"@, "super"@,
    ]
}


fn python_list() -> (r: Vec<&'static str>)
    ensures
        r@.map_values(|s: &'static str| s@) == python_stdlib(),
{
    let r = vec![
        "__future__", "abc", "aifc", "argparse", "array", "ast", "asynchat", "asyncio", "asyncore",
        "atexit", "audioop", "base64", "bdb", "binascii", "bisect", "builtins", "bz2", "calendar",
        "cgi", "cgitb", "chunk", "cmath", "cmd", "code", "codecs", "codeop", "collections",
        "colorsys", "compileall", "concurrent", "configparser", "contextlib", "contextvars", "copy",
        "copyreg", "cProfile", "crypt", "csv", "ctypes", "curses", "dataclasses", "datetime", "dbm",
        "decimal", "difflib", "dis", "doctest", "email", "encodings", "ensurepip", "enum", "errno",
        "faulthandler", "fcntl", "filecmp", "fileinput", "fnmatch", "fractions", "ftplib",
        "functools", "gc", "getopt", "getpass", "gettext", "glob", "graphlib", "grp", "gzip",
        "hashlib", "heapq", "hmac", "html", "http", "idlelib", "imaplib", "imghdr", "imp",
        "importlib", "inspect", "io", "ipaddress", "itertools", "json", "keyword", "lib2to3",
        "linecache", "locale", "logging", "lzma", "mailbox", "mailcap", "marshal", "math",
        "mimetypes", "mmap", "modulefinder", "msilib", "msvcrt", "multiprocessing", "netrc", "nis",
        "nntplib", "ntpath", "numbers", "opcode", "operator", "optparse", "os", "ossaudiodev",
        "pathlib", "pdb", "pickle", "pickletools", "pipes", "pkgutil", "platform", "plistlib",
        "poplib", "posix", "posixpath", "pprint", "profile", "pstats", "pty", "pwd", "py_compile",
        "pyclbr", "pydoc", "pyexpat", "queue", "quopri", "random", "re", "readline", "reprlib",
        "resource", "rlcompleter", "runpy", "sched", "secrets", "select", "selectors", "shelve",
        "shlex", "shutil", "signal", "site", "smtpd", "smtplib", "sndhdr", "socket", "socketserver",
        "spwd", "sqlite3", "sre_compile", "sre_constants", "sre_parse", "ssl", "stat", "statistics",
        "string", "stringprep", "struct", "subprocess", "sunau", "symtable", "sys", "sysconfig",
        "syslog", "tabnanny", "tarfile", "telnetlib", "tempfile", "termios", "textwrap", "this",
        "threading", "time", "timeit", "tkinter", "token", "tokenize", "tomllib", "trace",
        "traceback", "tracemalloc", "tty", "turtle", "turtledemo", "types", "typing", "unicodedata",
        "unittest", "urllib", "uu", "uuid", "venv", "warnings", "wave", "weakref", "webbrowser",
        "winreg", "winsound", "wsgiref", "xdrlib", "xml", "xmlrpc", "zipapp", "zipfile",
        "zipimport", "zlib", "zoneinfo",
    ];
    assert(r@.map_values(|s: &'static str| s@) =~= python_stdlib());
    r
}

fn node_list() -> (r: Vec<&'static str>)
    ensures
        r@.map_values(|s: &'static str| s@) == node_builtins(),
{
    let r = vec![
        "assert", "assert/strict", "async_hooks", "buffer", "child_process", "cluster", "console",
        "constants", "crypto", "dgram", "diagnostics_channel", "dns", "dns/promises", "domain",
        "events", "fs", "fs/promises", "http", "http2", "https", "inspector", "inspector/promises",
        "module", "net", "os", "path", "path/posix", "path/win32", "perf_hooks", "process",
        "punycode", "querystring", "readline", "readline/promises", "repl", "stream",
        "stream/consumers", "stream/promises", "stream/web", "string_decoder", "sys", "timers",
        "timers/promises", "tls", "trace_events", "tty", "url", "util", "util/types", "v8", "vm",
        "wasi", "worker_threads", "zlib",
    ];
    assert(r@.map_values(|s: &'static str| s@) =~= node_builtins());
    r
}

fn go_list() -> (r: Vec<&'static str>)
    ensures
        r@.map_values(|s: &'static str| s@) == go_stdlib(),
{
    let r = vec![
        "archive/tar", "archive/zip", "bufio", "bytes", "cmp", "compress/bzip2", "compress/flate",
        "compress/gzip", "compress/lzw", "compress/zlib", "container/heap", "container/list",
        "container/ring", "context", "crypto", "crypto/aes", "crypto/cipher", "crypto/des",
        "crypto/dsa", "crypto/ecdh", "crypto/ecdsa", "crypto/ed25519", "crypto/elliptic",
        "crypto/hmac", "crypto/md5", "crypto/rand", "crypto/rc4", "crypto/rsa", "crypto/sha1",
        "crypto/sha256", "crypto/sha512", "crypto/subtle", "crypto/tls", "crypto/x509",
        "crypto/x509/pkix", "database/sql", "database/sql/driver", "debug/buildinfo", "debug/dwarf",
        "debug/elf", "debug/gosym", "debug/macho", "debug/pe", "debug/plan9obj", "embed",
        "encoding", "encoding/ascii85", "encoding/asn1", "encoding/base32", "encoding/base64",
        "encoding/binary", "encoding/csv", "encoding/gob", "encoding/hex", "encoding/json",
        "encoding/pem", "encoding/xml", "errors", "expvar", "flag", "fmt", "go/ast", "go/build",
        "go/build/constraint", "go/constant", "go/doc", "go/doc/comment", "go/format",
        "go/importer", "go/parser", "go/printer", "go/scanner", "go/token", "go/types", "hash",
        "hash/adler32", "hash/crc32", "hash/crc64", "hash/fnv", "hash/maphash", "html",
        "html/template", "image", "image/color", "image/color/palette", "image/draw", "image/gif",
        "image/jpeg", "image/png", "index/suffixarray", "io", "io/fs", "io/ioutil", "iter", "log",
        "log/slog", "log/syslog", "maps", "math", "math/big", "math/bits", "math/cmplx",
        "math/rand", "math/rand/v2", "mime", "mime/multipart", "mime/quotedprintable", "net",
        "net/http", "net/http/cgi", "net/http/cookiejar", "net/http/fcgi", "net/http/httptest",
        "net/http/httptrace", "net/http/httputil", "net/http/pprof", "net/mail", "net/netip",
        "net/rpc", "net/rpc/jsonrpc", "net/smtp", "net/textproto", "net/url", "os", "os/exec",
        "os/signal", "os/user", "path", "path/filepath", "plugin", "reflect", "regexp",
        "regexp/syntax", "runtime", "runtime/cgo", "runtime/coverage", "runtime/debug",
        "runtime/metrics", "runtime/pprof", "runtime/race", "runtime/trace", "slices", "sort",
        "strconv", "strings", "sync", "sync/atomic", "syscall", "testing", "testing/fstest",
        "testing/iotest", "testing/quick", "testing/slogtest", "text/scanner", "text/tabwriter",
        "text/template", "text/template/parse", "time", "time/tzdata", "unicode", "unicode/utf16",
        "unicode/utf8", "unique", "unsafe", "weak",
    ];
    assert(r@.map_values(|s: &'static str| s@) =~= go_stdlib());
    r
}

fn rust_list() -> (r: Vec<&'static str>)
    ensures
        r@.map_values(|s: &'static str| s@) == rust_stdlib(),
{
    let r = vec![
        "std", "core", "alloc", "proc_macro", "test", "crate", "self", "super",
    ];
    assert(r@.map_values(|s: &'static str| s@) =~= rust_stdlib());
    r
}

/// The standard modules of a language.
pub open spec fn stdlib_modules(lang: StdlibLanguage) -> Seq<Seq<char>> {
    match lang {
        StdlibLanguage::Python => python_stdlib(),
        StdlibLanguage::JavaScript => node_builtins(),
        StdlibLanguage::Go => go_stdlib(),
        StdlibLanguage::Rust => rust_stdlib(),
    }
}

/// Whether a module is part of the language's standard library.
pub open spec fn stdlib_module(lang: StdlibLanguage, module: Seq<char>) -> bool {
    ||| stdlib_modules(lang).contains(module)
    ||| (lang is JavaScript && has_prefix(module, "node:"@) && stdlib_modules(lang).contains(
        module.skip(5),
    ))
}

fn list_contains(list: &Vec<&'static str>, module: &str) -> (r: bool)
    ensures
        r == list@.map_values(|s: &'static str| s@).contains(module@),
{
    let ghost names = list@.map_values(|s: &'static str| s@);
    let mut i: usize = 0;
    while i < list.len()
        invariant
            i <= list@.len(),
            names == list@.map_values(|s: &'static str| s@),
            forall|j: int| 0 <= j < i ==> names[j] != module@,
        decreases list.len() - i,
    {
        if str_eq(list[i], module) {
            assert(names[i as int] == module@);
            return true;
        }
        i = i + 1;
    }
    false
}

fn modules_of(lang: StdlibLanguage) -> (r: Vec<&'static str>)
    ensures
        r@.map_values(|s: &'static str| s@) == stdlib_modules(lang),
{
    match lang {
        StdlibLanguage::Python => python_list(),
        StdlibLanguage::JavaScript => node_list(),
        StdlibLanguage::Go => go_list(),
        StdlibLanguage::Rust => rust_list(),
    }
}

/// Check if a module is part of the standard library.
pub fn is_stdlib(lang: StdlibLanguage, module: &str) -> (r: bool)
    ensures
        r == stdlib_module(lang, module@),
{
    let list = modules_of(lang);
    if list_contains(&list, module) {
        return true;
    }
    match lang {
        StdlibLanguage::JavaScript => {
            let cs = chars_of(module);
            if starts_with_str(cs.as_slice(), "node:") {
                proof {
                    reveal_strlit("node:");
                }
                let n = cs.len();
                let rest = string_of(slice_range(cs.as_slice(), 5, n).as_slice());
                assert(rest@ =~= module@.skip(5));
                list_contains(&list, rest.as_str())
            } else {
                false
            }
        },
        _ => false,
    }
}

} // verus!
