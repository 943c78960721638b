//! Document identities and the registry that maps local folder names to them.

use vstd::prelude::*;
use vstd::string::StringExecFns;

verus! {

/// A logical document identity on the remote document-management service.
pub struct Document {
    pub project: String,
    pub space: String,
    pub name: String,
}

/// The mathematical value of a [`Document`]: its three components as
/// character sequences.
pub ghost struct DocumentView {
    pub project: Seq<char>,
    pub space: Seq<char>,
    pub name: Seq<char>,
}

impl View for Document {
    type V = DocumentView;

    open spec fn view(&self) -> DocumentView {
        DocumentView { project: self.project@, space: self.space@, name: self.name@ }
    }
}

impl DocumentView {
    /// The canonical string key of a document: `project/space/name`.
    pub open spec fn prefix(self) -> Seq<char> {
        self.project + seq!['/'] + self.space + seq!['/'] + self.name
    }

    /// The identifier of an attachment of this document: `prefix/name`.
    pub open spec fn attachment_id(self, attachment_name: Seq<char>) -> Seq<char> {
        self.prefix() + seq!['/'] + attachment_name
    }
}

impl Document {
    /// Builds the document's prefix by slash-separating its project, space
    /// and document name.
    pub fn prefix(&self) -> (r: String)
        ensures
            r@ == self@.prefix(),
    {
        let mut r = String::new();
        r.append(self.project.as_str());
        r.append("/");
        r.append(self.space.as_str());
        r.append("/");
        r.append(self.name.as_str());
        proof {
            reveal_strlit("/");
            assert(r@ =~= self@.prefix());
        }
        r
    }

    /// Builds an attachment's identifier from its name.
    pub fn get_attachment_id(&self, attachment_name: &str) -> (r: String)
        ensures
            r@ == self@.attachment_id(attachment_name@),
    {
        let mut r = self.prefix();
        r.append("/");
        r.append(attachment_name);
        proof {
            reveal_strlit("/");
            assert(r@ =~= self@.attachment_id(attachment_name@));
        }
        r
    }
}

/// One configured mapping from a local folder name to a document identity.
pub struct RegistryEntry {
    pub folder: String,
    pub document: Document,
}

/// The document registry: an in-memory mapping from a local folder name to
/// the document identity configured for it.  Keys are unique; the mapping is
/// read-only after it has been built.
pub struct DocumentRegistry {
    entries: Vec<RegistryEntry>,
}

/// The mapping that a sequence of registry entries denotes; a later entry
/// with the same folder name would win, but well-formed registries have
/// unique folder names.
spec fn entries_map(s: Seq<RegistryEntry>) -> Map<Seq<char>, DocumentView>
    decreases s.len(),
{
    if s.len() == 0 {
        Map::empty()
    } else {
        entries_map(s.drop_last()).insert(s.last().folder@, s.last().document@)
    }
}

proof fn lemma_entries_map_index(s: Seq<RegistryEntry>, i: int)
    requires
        0 <= i < s.len(),
        forall|a: int, b: int| 0 <= a < b < s.len() ==> s[a].folder@ != s[b].folder@,
    ensures
        entries_map(s).contains_key(s[i].folder@),
        entries_map(s)[s[i].folder@] == s[i].document@,
    decreases s.len(),
{
    if i < s.len() - 1 {
        let t = s.drop_last();
        assert(forall|a: int, b: int| 0 <= a < b < t.len() ==> t[a].folder@ != t[b].folder@);
        lemma_entries_map_index(t, i);
        assert(s[i].folder@ != s[s.len() - 1].folder@);
    }
}

proof fn lemma_entries_map_absent(s: Seq<RegistryEntry>, k: Seq<char>)
    requires
        forall|i: int| 0 <= i < s.len() ==> s[i].folder@ != k,
    ensures
        !entries_map(s).contains_key(k),
    decreases s.len(),
{
    if s.len() > 0 {
        lemma_entries_map_absent(s.drop_last(), k);
    }
}

impl View for DocumentRegistry {
    type V = Map<Seq<char>, DocumentView>;

    closed spec fn view(&self) -> Map<Seq<char>, DocumentView> {
        entries_map(self.entries@)
    }
}

impl DocumentRegistry {
    /// Folder names are unique, so every lookup has at most one answer.
    pub closed spec fn wf(&self) -> bool {
        forall|a: int, b: int|
            0 <= a < b < self.entries@.len() ==> self.entries@[a].folder@
                != self.entries@[b].folder@
    }

    /// An empty registry.
    pub fn new() -> (r: Self)
        ensures
            r.wf(),
            r@ == Map::<Seq<char>, DocumentView>::empty(),
    {
        DocumentRegistry { entries: Vec::new() }
    }

    /// Whether a folder name is configured.
    pub fn contains_folder(&self, folder: &String) -> (r: bool)
        requires
            self.wf(),
        ensures
            r == self@.contains_key(folder@),
    {
        self.lookup(folder).is_some()
    }

    /// Adds one folder-name-to-document mapping.  The configuration file is
    /// a JSON object, so each folder name occurs once.
    pub fn insert(&mut self, folder: String, document: Document)
        requires
            old(self).wf(),
            !old(self)@.contains_key(folder@),
        ensures
            final(self).wf(),
            final(self)@ == old(self)@.insert(folder@, document@),
    {
        proof {
            assert forall|i: int|
                0 <= i < self.entries@.len() implies self.entries@[i].folder@ != folder@ by {
                if self.entries@[i].folder@ == folder@ {
                    lemma_entries_map_index(self.entries@, i);
                }
            }
        }
        let ghost before = self.entries@;
        self.entries.push(RegistryEntry { folder, document });
        proof {
            assert(self.entries@.drop_last() =~= before);
        }
    }

    /// Finds the document configured for a folder name, if any.
    pub fn lookup<'a>(&'a self, folder: &String) -> (r: Option<&'a Document>)
        requires
            self.wf(),
        ensures
            match r {
                Some(d) => self@.contains_key(folder@) && d@ == self@[folder@],
                None => !self@.contains_key(folder@),
            },
    {
        let n = self.entries.len();
        let mut i: usize = 0;
        while i < n
            invariant
                self.wf(),
                n == self.entries@.len(),
                i <= n,
                forall|j: int| 0 <= j < i ==> self.entries@[j].folder@ != folder@,
            decreases n - i,
        {
            if self.entries[i].folder == *folder {
                proof {
                    lemma_entries_map_index(self.entries@, i as int);
                }
                return Some(&self.entries[i].document);
            }
            i += 1;
        }
        proof {
            lemma_entries_map_absent(self.entries@, folder@);
        }
        None
    }
}

/// Resolution failed: no configured folder name was found on the walk from
/// the path's parent up to the search boundary.
#[derive(Debug)]
pub struct ResolveError {}

/// The fixed separator that joins the path components below the matched
/// folder into one attachment name.
pub open spec fn separator() -> Seq<char> {
    seq!['_', '_', '_']
}

/// The components of `c` from index `i` on, joined with the separator.
pub open spec fn join_from(c: Seq<Seq<char>>, i: int) -> Seq<char>
    decreases c.len() - i,
{
    if i < 0 || i >= c.len() {
        Seq::empty()
    } else if i == c.len() - 1 {
        c[i]
    } else {
        c[i] + separator() + join_from(c, i + 1)
    }
}

/// The upward walk of the path resolver, at walk position `r`: `r` counts
/// the components of the candidate head, starting from all components but
/// the last and shrinking toward the root.  `g[k]` says whether the head
/// made of the first `k + 1` components contains version-control metadata
/// as a direct child, which bounds the search.
pub open spec fn resolve_from(
    c: Seq<Seq<char>>,
    g: Seq<bool>,
    m: Map<Seq<char>, DocumentView>,
    r: int,
) -> Option<(DocumentView, Seq<char>)>
    decreases r,
{
    if r <= 0 {
        None
    } else if g[r - 1] {
        None
    } else if m.contains_key(c[r - 1]) {
        Some((m[c[r - 1]], join_from(c, r)))
    } else {
        resolve_from(c, g, m, r - 1)
    }
}

/// What path resolution returns for components `c`, boundary marks `g` and
/// registry mapping `m`.
pub open spec fn resolve_spec(
    c: Seq<Seq<char>>,
    g: Seq<bool>,
    m: Map<Seq<char>, DocumentView>,
) -> Option<(DocumentView, Seq<char>)> {
    resolve_from(c, g, m, c.len() - 1)
}

/// Joins the path components from index `from` on with the separator.
pub fn join_components_from(components: &Vec<String>, from: usize) -> (r: String)
    requires
        from < components@.len(),
    ensures
        r@ == join_from(components.deep_view(), from as int),
{
    let ghost cv: Seq<Seq<char>> = components.deep_view();
    let mut r = String::new();
    r.append(components[from].as_str());
    proof {
        assert(r@ =~= cv[from as int]);
    }
    let n = components.len();
    let mut i: usize = from + 1;
    while i < n
        invariant
            from + 1 <= i <= components@.len(),
            n == components@.len(),
            cv == components.deep_view(),
            cv.len() == components@.len(),
            i < cv.len() ==> join_from(cv, from as int) == r@ + separator() + join_from(
                cv,
                i as int,
            ),
            i == cv.len() ==> join_from(cv, from as int) == r@,
        decreases components@.len() - i,
    {
        let ghost prev: Seq<char> = r@;
        r.append("___");
        r.append(components[i].as_str());
        proof {
            reveal_strlit("___");
            assert("___"@ =~= separator());
            assert(r@ =~= prev + separator() + cv[i as int]);
            if i as int == cv.len() - 1 {
                assert(join_from(cv, from as int) =~= r@);
            } else {
                assert(join_from(cv, i as int) == cv[i as int] + separator() + join_from(
                    cv,
                    i as int + 1,
                ));
                assert(prev + separator() + join_from(cv, i as int) =~= r@ + separator()
                    + join_from(cv, i as int + 1));
            }
        }
        i += 1;
    }
    r
}

/// Walks the path upward from its parent folder: for each candidate head,
/// stops at a version-control boundary, otherwise matches the head's final
/// component against the registry; on a match, the attachment name is the
/// rest of the path joined with the separator.
///
/// `components` are the path's components in order; `repo_roots[k]` says
/// whether the head made of the first `k + 1` components contains
/// version-control metadata as a direct child.
pub fn guess_document_and_name<'a>(
    components: &Vec<String>,
    repo_roots: &Vec<bool>,
    documents: &'a DocumentRegistry,
) -> (r: Result<(&'a Document, String), ResolveError>)
    requires
        documents.wf(),
        repo_roots@.len() == components@.len(),
        components@.len() >= 1,
    ensures
        match r {
            Ok(p) => resolve_spec(components.deep_view(), repo_roots@, documents@) == Some(
                (p.0@, p.1@),
            ),
            Err(_) => resolve_spec(components.deep_view(), repo_roots@, documents@) is None,
        },
{
    let ghost cv: Seq<Seq<char>> = components.deep_view();
    let total = components.len();
    let mut remainder = total - 1;
    while remainder > 0
        invariant
            documents.wf(),
            repo_roots@.len() == components@.len(),
            cv == components.deep_view(),
            cv.len() == components@.len(),
            total == components@.len(),
            1 <= total,
            remainder <= total - 1,
            resolve_from(cv, repo_roots@, documents@, total - 1) == resolve_from(
                cv,
                repo_roots@,
                documents@,
                remainder as int,
            ),
        decreases remainder,
    {
        if repo_roots[remainder - 1] {
            return Err(ResolveError {});
        }
        match documents.lookup(&components[remainder - 1]) {
            Some(document) => {
                let name = join_components_from(components, remainder);
                return Ok((document, name));
            },
            None => {},
        }
        remainder -= 1;
    }
    Err(ResolveError {})
}

proof fn lemma_resolve_reaches(
    c: Seq<Seq<char>>,
    g: Seq<bool>,
    m: Map<Seq<char>, DocumentView>,
    i: int,
    r: int,
)
    requires
        0 <= i < c.len() - 1,
        i + 1 <= r <= c.len() - 1,
        m.contains_key(c[i]),
        forall|j: int| i < j < c.len() - 1 ==> !m.contains_key(c[j]),
        forall|k: int| i <= k < c.len() - 1 ==> !g[k],
    ensures
        resolve_from(c, g, m, r) == Some((m[c[i]], join_from(c, i + 1))),
    decreases r,
{
    if r > i + 1 {
        lemma_resolve_reaches(c, g, m, i, r - 1);
    }
}

/// If the ancestor chain of a path contains exactly one folder name that is
/// in the registry, and no repository-root boundary lies on the walk from
/// the path down to (and including) that folder's own head, then resolution
/// succeeds with that folder's document, and the attachment name is the
/// remaining components joined with the separator.
pub proof fn lemma_single_match_resolves(
    c: Seq<Seq<char>>,
    g: Seq<bool>,
    m: Map<Seq<char>, DocumentView>,
    i: int,
)
    requires
        0 <= i < c.len() - 1,
        m.contains_key(c[i]),
        forall|j: int| 0 <= j < c.len() - 1 && j != i ==> !m.contains_key(c[j]),
        forall|k: int| i <= k < c.len() - 1 ==> !g[k],
    ensures
        resolve_spec(c, g, m) == Some((m[c[i]], join_from(c, i + 1))),
{
    lemma_resolve_reaches(c, g, m, i, c.len() - 1);
}

proof fn lemma_no_match_from(c: Seq<Seq<char>>, g: Seq<bool>, m: Map<Seq<char>, DocumentView>, r: int)
    requires
        r <= c.len() - 1,
        forall|j: int| 0 <= j < c.len() - 1 ==> !m.contains_key(c[j]),
    ensures
        resolve_from(c, g, m, r) is None,
    decreases r,
{
    if r > 0 && !g[r - 1] {
        lemma_no_match_from(c, g, m, r - 1);
    }
}

/// If no ancestor folder name of the path is in the registry, resolution
/// fails, whatever the boundary marks say.
pub proof fn lemma_no_match_fails(c: Seq<Seq<char>>, g: Seq<bool>, m: Map<Seq<char>, DocumentView>)
    requires
        forall|j: int| 0 <= j < c.len() - 1 ==> !m.contains_key(c[j]),
    ensures
        resolve_spec(c, g, m) is None,
{
    lemma_no_match_from(c, g, m, c.len() - 1);
}

proof fn lemma_boundary_from(
    c: Seq<Seq<char>>,
    g: Seq<bool>,
    m: Map<Seq<char>, DocumentView>,
    b: int,
    r: int,
)
    requires
        0 <= b,
        b + 1 <= r <= c.len() - 1,
        g[b],
        forall|j: int| b < j < c.len() - 1 ==> !m.contains_key(c[j]),
    ensures
        resolve_from(c, g, m, r) is None,
    decreases r,
{
    if !g[r - 1] {
        lemma_boundary_from(c, g, m, b, r - 1);
    }
}

/// If a repository-root boundary lies between the path and every matching
/// ancestor — every folder name above the boundary is absent from the
/// registry — then resolution fails, even though a match may exist at or
/// below the boundary.
pub proof fn lemma_boundary_blocks(
    c: Seq<Seq<char>>,
    g: Seq<bool>,
    m: Map<Seq<char>, DocumentView>,
    b: int,
)
    requires
        0 <= b <= c.len() - 2,
        g[b],
        forall|j: int| b < j < c.len() - 1 ==> !m.contains_key(c[j]),
    ensures
        resolve_spec(c, g, m) is None,
{
    lemma_boundary_from(c, g, m, b, c.len() - 1);
}

} // verus!
