//! Provisioning: the resource ledger of one assistant generation. Uploaded
//! files are recorded as they succeed, the instruction template is rendered
//! by resolving `{file_name}` placeholders to remote file identifiers, and
//! teardown hands every recorded handle out exactly once.

use vstd::prelude::*;
use vstd::string::*;

use crate::text::{placeholder, replace_all, spec_placeholder, spec_replace_all};

verus! {

/// One uploaded remote file: its remote identifier and the logical name the
/// instruction template refers to it by.
pub struct FileInfo {
    pub file_id: String,
    pub file_name: String,
}

pub struct FileInfoView {
    pub file_id: Seq<char>,
    pub file_name: Seq<char>,
}

impl View for FileInfo {
    type V = FileInfoView;

    open spec fn view(&self) -> FileInfoView {
        FileInfoView { file_id: self.file_id@, file_name: self.file_name@ }
    }
}

impl Clone for FileInfo {
    fn clone(&self) -> (res: Self)
        ensures
            res == *self,
    {
        FileInfo { file_id: self.file_id.clone(), file_name: self.file_name.clone() }
    }
}

pub open spec fn files_view(s: Seq<FileInfo>) -> Seq<FileInfoView> {
    s.map_values(|f: FileInfo| f@)
}

/// The remote identifiers of a file set, as a sequence of character strings.
pub open spec fn file_ids_view(s: Seq<FileInfo>) -> Seq<Seq<char>> {
    s.map_values(|f: FileInfo| f.file_id@)
}

/// The rendered instruction text: for each file in turn, every occurrence of
/// its `{file_name}` placeholder replaced by its remote identifier. A
/// placeholder naming no uploaded file stays as literal text.
pub open spec fn spec_render_instruction(template: Seq<char>, files: Seq<FileInfoView>) -> Seq<char>
    decreases files.len(),
{
    if files.len() == 0 {
        template
    } else {
        spec_render_instruction(
            spec_replace_all(template, spec_placeholder(files[0].file_name), files[0].file_id),
            files.skip(1),
        )
    }
}

/// Renders an instruction template against a set of uploaded files.
pub fn render_instruction(template: &str, files: &Vec<FileInfo>) -> (r: String)
    ensures
        r@ == spec_render_instruction(template@, files_view(files@)),
{
    let mut current = template.to_owned();
    let mut i: usize = 0;
    proof {
        assert(files_view(files@).skip(0) =~= files_view(files@));
    }
    while i < files.len()
        invariant
            i <= files@.len(),
            spec_render_instruction(template@, files_view(files@)) == spec_render_instruction(
                current@,
                files_view(files@).skip(i as int),
            ),
        decreases files@.len() - i,
    {
        let ghost tail = files_view(files@).skip(i as int);
        proof {
            reveal_strlit("{");
            reveal_strlit("}");
            assert(tail[0] == files@[i as int]@);
            assert(tail.skip(1) =~= files_view(files@).skip(i as int + 1));
        }
        let token = placeholder(files[i].file_name.as_str());
        current = replace_all(current.as_str(), token.as_str(), files[i].file_id.as_str());
        i = i + 1;
    }
    proof {
        assert(files_view(files@).skip(files@.len() as int) =~= Seq::<FileInfoView>::empty());
    }
    current
}

/// The resource ledger of the earlier, single-folder provisioning: the
/// folder scraped pages land in, the identifiers of the files uploaded from
/// it, and the URLs to scrape.
pub struct Files {
    pub folder_path: String,
    pub file_ids: Vec<String>,
    pub scrape_urls: Vec<String>,
}

pub open spec fn ids_view(s: Seq<String>) -> Seq<Seq<char>> {
    s.map_values(|id: String| id@)
}

impl Files {
    /// A ledger with nothing uploaded yet.
    pub fn new(folder_path: String, scrape_urls: Vec<String>) -> (f: Files)
        ensures
            f.folder_path == folder_path,
            f.scrape_urls == scrape_urls,
            f.file_ids@.len() == 0,
    {
        Files { folder_path, file_ids: Vec::new(), scrape_urls }
    }

    /// Records one successful upload. Nothing recorded earlier is touched,
    /// so an upload failure aborts provisioning with every prior handle
    /// still on the ledger.
    pub fn record_upload(&mut self, file_id: String)
        ensures
            final(self).file_ids@ == old(self).file_ids@.push(file_id),
            final(self).folder_path == old(self).folder_path,
            final(self).scrape_urls == old(self).scrape_urls,
    {
        self.file_ids.push(file_id);
    }

    /// Hands every recorded handle out for deletion and empties the ledger:
    /// each handle leaves it exactly once, at teardown.
    pub fn take_teardown(&mut self) -> (ids: Vec<String>)
        ensures
            ids == old(self).file_ids,
            final(self).file_ids@.len() == 0,
            final(self).folder_path == old(self).folder_path,
            final(self).scrape_urls == old(self).scrape_urls,
    {
        let mut ids: Vec<String> = Vec::new();
        core::mem::swap(&mut ids, &mut self.file_ids);
        ids
    }
}

/// The resource ledger of one assistant generation: uploaded files for the
/// search index and for the code interpreter, the vector index built over
/// the former, and the rendered instruction text.
pub struct Ressources {
    pub vector_store_id: String,
    pub files_info_file_search: Vec<FileInfo>,
    pub files_info_code_interpreter: Vec<FileInfo>,
    pub folder_path_file_search: String,
    pub folder_path_code_interpreter: String,
    pub scrape_urls: Vec<String>,
    pub instruction_file_path: String,
    pub instruction: String,
}

impl Ressources {
    /// A fresh generation's ledger: the configured paths and URLs, nothing
    /// uploaded, no index, no instruction text yet.
    pub fn new(
        folder_path_file_search: String,
        folder_path_code_interpreter: String,
        scrape_urls: Vec<String>,
        instruction_file_path: String,
    ) -> (r: Ressources)
        ensures
            r.vector_store_id@.len() == 0,
            r.files_info_file_search@.len() == 0,
            r.files_info_code_interpreter@.len() == 0,
            r.folder_path_file_search == folder_path_file_search,
            r.folder_path_code_interpreter == folder_path_code_interpreter,
            r.scrape_urls == scrape_urls,
            r.instruction_file_path == instruction_file_path,
            r.instruction@.len() == 0,
    {
        Ressources {
            vector_store_id: String::new(),
            files_info_file_search: Vec::new(),
            files_info_code_interpreter: Vec::new(),
            folder_path_file_search,
            folder_path_code_interpreter,
            scrape_urls,
            instruction_file_path,
            instruction: String::new(),
        }
    }

    /// Records one successful upload into the search-index set.
    pub fn record_file_search_upload(&mut self, file_id: String, file_name: String)
        ensures
            *final(self) == (Ressources {
                files_info_file_search: final(self).files_info_file_search,
                ..*old(self)
            }),
            final(self).files_info_file_search@ == old(self).files_info_file_search@.push(
                FileInfo { file_id, file_name },
            ),
    {
        self.files_info_file_search.push(FileInfo { file_id, file_name });
    }

    /// Records one successful upload into the code-interpreter set.
    pub fn record_code_interpreter_upload(&mut self, file_id: String, file_name: String)
        ensures
            *final(self) == (Ressources {
                files_info_code_interpreter: final(self).files_info_code_interpreter,
                ..*old(self)
            }),
            final(self).files_info_code_interpreter@ == old(self).files_info_code_interpreter@.push(
                FileInfo { file_id, file_name },
            ),
    {
        self.files_info_code_interpreter.push(FileInfo { file_id, file_name });
    }

    /// Records the identifier of the vector index built over the uploaded
    /// search files.
    pub fn set_vector_store_id(&mut self, id: String)
        ensures
            *final(self) == (Ressources { vector_store_id: id, ..*old(self) }),
    {
        self.vector_store_id = id;
    }

    /// The remote identifiers of the search files, in upload order — what
    /// the vector-index creation request carries.
    pub fn file_search_ids(&self) -> (r: Vec<String>)
        ensures
            ids_view(r@) == file_ids_view(self.files_info_file_search@),
    {
        file_ids_of(&self.files_info_file_search)
    }

    /// The remote identifiers of the code-interpreter files, in upload order
    /// — what the assistant-creation request binds to the interpreter.
    pub fn code_interpreter_ids(&self) -> (r: Vec<String>)
        ensures
            ids_view(r@) == file_ids_view(self.files_info_code_interpreter@),
    {
        file_ids_of(&self.files_info_code_interpreter)
    }

    /// Renders the instruction template against every uploaded file — the
    /// search set first, then the interpreter set — and keeps the result.
    /// An unresolved placeholder stays as literal text.
    pub fn create_instruction(&mut self, template: &str)
        ensures
            *final(self) == (Ressources { instruction: final(self).instruction, ..*old(self) }),
            final(self).instruction@ == spec_render_instruction(
                spec_render_instruction(template@, files_view(old(self).files_info_file_search@)),
                files_view(old(self).files_info_code_interpreter@),
            ),
    {
        let first = render_instruction(template, &self.files_info_file_search);
        self.instruction = render_instruction(first.as_str(), &self.files_info_code_interpreter);
    }

    /// Hands every recorded handle out for deletion — the search set first,
    /// then the interpreter set — and empties both: each handle leaves the
    /// ledger exactly once, at the generation's teardown.
    pub fn take_teardown(&mut self) -> (ids: Vec<String>)
        ensures
            ids_view(ids@) == file_ids_view(old(self).files_info_file_search@) + file_ids_view(
                old(self).files_info_code_interpreter@,
            ),
            final(self).files_info_file_search@.len() == 0,
            final(self).files_info_code_interpreter@.len() == 0,
            final(self).vector_store_id == old(self).vector_store_id,
            final(self).folder_path_file_search == old(self).folder_path_file_search,
            final(self).folder_path_code_interpreter == old(self).folder_path_code_interpreter,
            final(self).scrape_urls == old(self).scrape_urls,
            final(self).instruction_file_path == old(self).instruction_file_path,
            final(self).instruction == old(self).instruction,
    {
        let mut ids = file_ids_of(&self.files_info_file_search);
        let mut rest = file_ids_of(&self.files_info_code_interpreter);
        let ghost ids0 = ids@;
        let ghost rest0 = rest@;
        ids.append(&mut rest);
        proof {
            assert(ids_view(ids@) =~= ids_view(ids0) + ids_view(rest0));
        }
        self.files_info_file_search.clear();
        self.files_info_code_interpreter.clear();
        ids
    }
}

/// The remote identifiers of a file set, in order.
fn file_ids_of(files: &Vec<FileInfo>) -> (r: Vec<String>)
    ensures
        ids_view(r@) == file_ids_view(files@),
{
    let mut r: Vec<String> = Vec::new();
    let mut i: usize = 0;
    while i < files.len()
        invariant
            i <= files@.len(),
            ids_view(r@) == file_ids_view(files@.subrange(0, i as int)),
        decreases files@.len() - i,
    {
        let ghost r0 = r@;
        r.push(files[i].file_id.clone());
        proof {
            assert(files@.subrange(0, i as int + 1) =~= files@.subrange(0, i as int).push(
                files@[i as int],
            ));
            assert(ids_view(r@) =~= ids_view(r0).push(files@[i as int].file_id@));
            assert(file_ids_view(files@.subrange(0, i as int + 1)) =~= file_ids_view(
                files@.subrange(0, i as int),
            ).push(files@[i as int].file_id@));
        }
        i = i + 1;
    }
    proof {
        assert(files@.subrange(0, files@.len() as int) =~= files@);
    }
    r
}

/// An assistant generation's own attributes: the remote identifier once the
/// remote service has assigned one, the generation-tagged name, the model,
/// and the rendered instruction text it was created with.
pub struct Assistant {
    pub id: String,
    pub name: String,
    pub model: String,
    pub instruction: String,
}

impl Assistant {
    /// An assistant about to be created remotely: no identifier yet.
    pub fn new(name: String, model: String, instruction: String) -> (a: Assistant)
        ensures
            a.id@.len() == 0,
            a.name == name,
            a.model == model,
            a.instruction == instruction,
    {
        Assistant { id: String::new(), name, model, instruction }
    }

    /// Binds the identifier the remote service answered creation with.
    pub fn assign_remote_id(&mut self, id: String)
        ensures
            *final(self) == (Assistant { id, ..*old(self) }),
    {
        self.id = id;
    }
}

} // verus!
