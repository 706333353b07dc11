//! Search for a USB volume to boot from.

use vstd::prelude::*;
use crate::chainload::device_path_protocol_guid;
use crate::device_path::{
    DevicePathBuf, closed_size, device_path_has_usb_node, has_usb_node, is_device_path,
    nodes_make_path, path_nodes, path_size_of_device_path, usb_nodes_by_number,
};
use crate::efi::Guid;

verus! {

/// GUID of `EFI_SIMPLE_FILE_SYSTEM_PROTOCOL`. Its handles are mounted volumes,
/// so that a path to one is enough to load the default boot application.
#[verifier::allow_in_spec]
pub fn simple_file_system_guid() -> Guid
    returns
        (Guid {
            time_low: 0x964e5b22,
            time_mid: 0x6459,
            time_hi_and_version: 0x11d2,
            clk_seq_hi_res: 0x8e,
            clk_seq_low: 0x39,
            node: [0x00, 0xa0, 0xc9, 0x69, 0x72, 0x3b],
        }),
{
    Guid {
        time_low: 0x964e5b22,
        time_mid: 0x6459,
        time_hi_and_version: 0x11d2,
        clk_seq_hi_res: 0x8e,
        clk_seq_low: 0x39,
        node: [0x00, 0xa0, 0xc9, 0x69, 0x72, 0x3b],
    }
}

/// What the lookup of a handle's device path came to.
#[derive(Debug)]
pub enum PathLookup<P> {
    /// The lookup failed.
    Failed,
    /// There is no path.
    Absent,
    /// The bytes from the start of the path on, at least up to the header of
    /// its end node.
    Present(P),
}

impl View for PathLookup<Vec<u8>> {
    type V = PathLookup<Seq<u8>>;

    open spec fn view(&self) -> PathLookup<Seq<u8>> {
        match *self {
            PathLookup::Failed => PathLookup::Failed,
            PathLookup::Absent => PathLookup::Absent,
            PathLookup::Present(bytes) => PathLookup::Present(bytes@),
        }
    }
}

/// The device path that the lookup gave, if it is that of a USB volume: up to
/// its end node, with a USB node on the way.
pub open spec fn usb_path(lookup: PathLookup<Seq<u8>>) -> Option<Seq<u8>> {
    match lookup {
        PathLookup::Present(bytes) => match closed_size(bytes) {
            Some(size) => if has_usb_node(bytes.take(size as int)) {
                Some(bytes.take(size as int))
            } else {
                None
            },
            None => None,
        },
        _ => None,
    }
}

/// A call to make for the search. A handle is a plain number.
#[derive(Debug)]
pub enum UsbSearchAction<P> {
    /// Locate all handles with the protocol of this GUID.
    LocateHandles(Guid),
    /// Look up the protocol with the GUID `protocol`, a device path, on
    /// `handle`.
    LookUpPath { handle: usize, protocol: Guid },
    /// Nothing is left to do; this is the path that was found, if any.
    Finished(Option<P>),
}

impl<'a> View for UsbSearchAction<&'a DevicePathBuf> {
    type V = UsbSearchAction<Seq<u8>>;

    open spec fn view(&self) -> UsbSearchAction<Seq<u8>> {
        match *self {
            UsbSearchAction::LocateHandles(guid) => UsbSearchAction::LocateHandles(guid),
            UsbSearchAction::LookUpPath { handle, protocol } => UsbSearchAction::LookUpPath {
                handle,
                protocol,
            },
            UsbSearchAction::Finished(found) => UsbSearchAction::Finished(
                match found {
                    Some(path) => Some(path@),
                    None => None,
                },
            ),
        }
    }
}

/// The answer to a call of the search.
#[derive(Debug)]
pub enum UsbSearchAnswer<H, P> {
    /// The handles in the order of the firmware, if they could be located.
    Handles(Option<H>),
    /// What the lookup of the path came to.
    Path(PathLookup<P>),
}

impl View for UsbSearchAnswer<Vec<usize>, Vec<u8>> {
    type V = UsbSearchAnswer<Seq<usize>, Seq<u8>>;

    open spec fn view(&self) -> UsbSearchAnswer<Seq<usize>, Seq<u8>> {
        match *self {
            UsbSearchAnswer::Handles(handles) => UsbSearchAnswer::Handles(
                match handles {
                    Some(handles) => Some(handles@),
                    None => None,
                },
            ),
            UsbSearchAnswer::Path(lookup) => UsbSearchAnswer::Path(lookup@),
        }
    }
}

/// Whether `answer` is one that `action` can have.
pub open spec fn answers_usb_search_action(
    action: UsbSearchAction<Seq<u8>>,
    answer: UsbSearchAnswer<Seq<usize>, Seq<u8>>,
) -> bool {
    match action {
        UsbSearchAction::LocateHandles(_) => answer is Handles,
        UsbSearchAction::LookUpPath { handle, protocol } => answer is Path,
        UsbSearchAction::Finished(_) => false,
    }
}

/// The search for a USB volume.
#[derive(Debug)]
pub enum UsbSearch<H, P> {
    /// The handles of all volumes are to be located.
    Locate,
    /// The path of the handle at `index` is to be looked up.
    Check { handles: H, index: usize },
    /// Nothing is left to do; holds the path that was found, if any.
    Finished(Option<P>),
}

impl View for UsbSearch<Vec<usize>, DevicePathBuf> {
    type V = UsbSearch<Seq<usize>, Seq<u8>>;

    open spec fn view(&self) -> UsbSearch<Seq<usize>, Seq<u8>> {
        match *self {
            UsbSearch::Locate => UsbSearch::Locate,
            UsbSearch::Check { handles, index } => UsbSearch::Check { handles: handles@, index },
            UsbSearch::Finished(found) => UsbSearch::Finished(
                match found {
                    Some(path) => Some(path@),
                    None => None,
                },
            ),
        }
    }
}

impl UsbSearch<Seq<usize>, Seq<u8>> {
    /// What every step keeps: the handle to check is one of the handles.
    pub open spec fn wf(self) -> bool {
        self matches UsbSearch::Check { handles, index } ==> index < handles.len() <= usize::MAX
    }

    /// The call to make next.
    pub open spec fn spec_action(self) -> UsbSearchAction<Seq<u8>> {
        match self {
            UsbSearch::Locate => UsbSearchAction::LocateHandles(simple_file_system_guid()),
            UsbSearch::Check { handles, index } => UsbSearchAction::LookUpPath {
                handle: handles[index as int],
                protocol: device_path_protocol_guid(),
            },
            UsbSearch::Finished(found) => UsbSearchAction::Finished(found),
        }
    }

    /// The search with the handle at `index` next, if there is one.
    pub open spec fn at(handles: Seq<usize>, index: int) -> UsbSearch<Seq<usize>, Seq<u8>> {
        if index < handles.len() {
            UsbSearch::Check { handles, index: index as usize }
        } else {
            UsbSearch::Finished(None)
        }
    }

    /// What follows from the answer to that call. A handle whose lookup fails
    /// or gives no readable path is passed over, as is one without a USB node.
    pub open spec fn spec_next(self, answer: UsbSearchAnswer<Seq<usize>, Seq<u8>>) -> UsbSearch<
        Seq<usize>,
        Seq<u8>,
    > {
        match (self, answer) {
            (UsbSearch::Locate, UsbSearchAnswer::Handles(located)) => match located {
                Some(handles) => UsbSearch::at(handles, 0),
                None => UsbSearch::Finished(None),
            },
            (UsbSearch::Check { handles, index }, UsbSearchAnswer::Path(lookup)) => {
                if usb_path(lookup) is Some {
                    UsbSearch::Finished(usb_path(lookup))
                } else {
                    UsbSearch::at(handles, index + 1)
                }
            },
            _ => self,
        }
    }
}

/// Starts to search for the first volume, in the order of the firmware, whose
/// device path has a USB node.
pub fn find_first_usb_block_io_device_path() -> (run: UsbSearchRun)
    ensures
        run@ == UsbSearch::<Seq<usize>, Seq<u8>>::Locate,
{
    UsbSearchRun { search: UsbSearch::Locate }
}

/// The search for a USB volume under way.
#[derive(Debug)]
pub struct UsbSearchRun {
    search: UsbSearch<Vec<usize>, DevicePathBuf>,
}

impl View for UsbSearchRun {
    type V = UsbSearch<Seq<usize>, Seq<u8>>;

    closed spec fn view(&self) -> UsbSearch<Seq<usize>, Seq<u8>> {
        self.search@
    }
}

impl UsbSearchRun {
    /// The handle to check is one of the handles.
    #[verifier::type_invariant]
    closed spec fn well_formed(self) -> bool {
        self.search@.wf()
    }

    /// The call to make next.
    pub fn action(&self) -> (action: UsbSearchAction<&DevicePathBuf>)
        ensures
            action@ == self@.spec_action(),
    {
        proof {
            use_type_invariant(self);
        }
        match &self.search {
            UsbSearch::Locate => UsbSearchAction::LocateHandles(simple_file_system_guid()),
            UsbSearch::Check { handles, index } => UsbSearchAction::LookUpPath {
                handle: handles[*index],
                protocol: device_path_protocol_guid(),
            },
            UsbSearch::Finished(Some(path)) => UsbSearchAction::Finished(Some(path)),
            UsbSearch::Finished(None) => UsbSearchAction::Finished(None),
        }
    }

    /// The search with the handle at `index` next, if there is one.
    fn check_at(handles: Vec<usize>, index: usize) -> (search: UsbSearch<
        Vec<usize>,
        DevicePathBuf,
    >)
        ensures
            search@ == UsbSearch::<Seq<usize>, Seq<u8>>::at(handles@, index as int),
            search@.wf(),
    {
        if index < handles.len() {
            UsbSearch::Check { handles, index }
        } else {
            UsbSearch::Finished(None)
        }
    }

    /// Takes the answer to the call.
    pub fn advance(self, answer: UsbSearchAnswer<Vec<usize>, Vec<u8>>) -> (next: UsbSearchRun)
        requires
            answers_usb_search_action(self@.spec_action(), answer@),
        ensures
            next@ == self@.spec_next(answer@),
    {
        proof {
            use_type_invariant(&self);
        }
        let search = match (self.search, answer) {
            (UsbSearch::Locate, UsbSearchAnswer::Handles(located)) => match located {
                Some(handles) => UsbSearchRun::check_at(handles, 0),
                None => UsbSearch::Finished(None),
            },
            (UsbSearch::Check { handles, index }, UsbSearchAnswer::Path(lookup)) => match lookup {
                PathLookup::Failed => UsbSearchRun::check_at(handles, index + 1),
                PathLookup::Absent => UsbSearchRun::check_at(handles, index + 1),
                PathLookup::Present(bytes) => match DevicePathBuf::try_from_bytes(
                    bytes.as_slice(),
                ) {
                    Some(path) => if device_path_has_usb_node(&path) {
                        UsbSearch::Finished(Some(path))
                    } else {
                        UsbSearchRun::check_at(handles, index + 1)
                    },
                    None => UsbSearchRun::check_at(handles, index + 1),
                },
            },
            (state, _) => state,
        };
        UsbSearchRun { search }
    }
}

/// The path that the search finds from state `search` on, if the lookup of
/// each handle comes to what `lookups` says.
pub open spec fn search_result(
    search: UsbSearch<Seq<usize>, Seq<u8>>,
    lookups: spec_fn(usize) -> PathLookup<Seq<u8>>,
) -> Option<Seq<u8>>
    decreases
        (match search {
            UsbSearch::Check { handles, index } => handles.len() - index,
            _ => 0,
        }),
    when search.wf() && search !is Locate
{
    match search {
        UsbSearch::Check { handles, index } => search_result(
            search.spec_next(UsbSearchAnswer::Path(lookups(handles[index as int]))),
            lookups,
        ),
        UsbSearch::Finished(found) => found,
        UsbSearch::Locate => None,
    }
}

/// Whether the handle at `index` is that of a USB volume and no earlier handle
/// is.
pub open spec fn is_first_usb(
    handles: Seq<usize>,
    lookups: spec_fn(usize) -> PathLookup<Seq<u8>>,
    index: int,
) -> bool {
    &&& 0 <= index < handles.len()
    &&& usb_path(lookups(handles[index])) is Some
    &&& forall|j: int| 0 <= j < index ==> usb_path(lookups(#[trigger] handles[j])) is None
}

/// From any handle on that the search reaches.
proof fn lemma_search_result_from(
    handles: Seq<usize>,
    lookups: spec_fn(usize) -> PathLookup<Seq<u8>>,
    from: int,
)
    requires
        0 <= from <= handles.len() <= usize::MAX,
        forall|j: int| 0 <= j < from ==> usb_path(lookups(#[trigger] handles[j])) is None,
    ensures
        ({
            let found = search_result(UsbSearch::at(handles, from), lookups);
            &&& found matches Some(path) ==> exists|i: int|
                is_first_usb(handles, lookups, i) && usb_path(lookups(#[trigger] handles[i]))
                    == Some(path)
            &&& found is None ==> forall|i: int|
                0 <= i < handles.len() ==> usb_path(lookups(#[trigger] handles[i])) is None
        }),
    decreases handles.len() - from,
{
    reveal_with_fuel(search_result, 2);
    if from < handles.len() {
        if usb_path(lookups(handles[from])) is Some {
            assert(is_first_usb(handles, lookups, from));
        } else {
            lemma_search_result_from(handles, lookups, from + 1);
        }
    }
}

/// The search finds the path of the first handle, in the order of the
/// firmware, that is that of a USB volume, whatever the lookups of the other
/// handles come to. It finds nothing only if no handle is that of a USB volume.
pub proof fn search_finds_first_usb(
    handles: Seq<usize>,
    lookups: spec_fn(usize) -> PathLookup<Seq<u8>>,
)
    requires
        handles.len() <= usize::MAX,
    ensures
        ({
            let found = search_result(
                UsbSearch::Locate.spec_next(UsbSearchAnswer::Handles(Some(handles))),
                lookups,
            );
            &&& found matches Some(path) ==> exists|i: int|
                is_first_usb(handles, lookups, i) && usb_path(lookups(#[trigger] handles[i]))
                    == Some(path)
            &&& found is None ==> forall|i: int|
                0 <= i < handles.len() ==> usb_path(lookups(#[trigger] handles[i])) is None
        }),
{
    lemma_search_result_from(handles, lookups, 0);
}

/// At most one handle is the first of a USB volume.
pub proof fn first_usb_is_unique(
    handles: Seq<usize>,
    lookups: spec_fn(usize) -> PathLookup<Seq<u8>>,
    i: int,
    j: int,
)
    requires
        is_first_usb(handles, lookups, i),
        is_first_usb(handles, lookups, j),
    ensures
        i == j,
{
    assert(usb_path(lookups(handles[i])) is Some);
    assert(usb_path(lookups(handles[j])) is Some);
}

/// Without any handles the search finds nothing.
pub proof fn search_without_handles()
    ensures
        UsbSearch::Locate.spec_next(UsbSearchAnswer::Handles(None)).spec_action()
            == UsbSearchAction::Finished(None::<Seq<u8>>),
        UsbSearch::Locate.spec_next(UsbSearchAnswer::Handles(Some(seq![]))).spec_action()
            == UsbSearchAction::Finished(None::<Seq<u8>>),
{
}

/// What a lookup that gave a path makes of the search, by the nodes of the path:
/// if one of them, at whatever place, is a messaging node (type 3) of sub-type
/// 5, 15 or 16, the search ends with exactly the path, up to the header of its
/// end node; if not, the next handle is looked at, or nothing was found if there
/// is none. What the end node says of its length, and what comes after it,
/// makes no difference.
pub proof fn search_goes_by_nodes(
    handles: Seq<usize>,
    index: usize,
    nodes: Seq<Seq<u8>>,
    low: u8,
    high: u8,
    tail: Seq<u8>,
)
    requires
        index < handles.len() <= usize::MAX,
        forall|i: int|
            0 <= i < nodes.len() ==> {
                &&& (#[trigger] nodes[i]).len() >= 4
                &&& nodes[i][2] + 256 * nodes[i][3] == nodes[i].len()
                &&& !(nodes[i][0] == 0x7F && nodes[i][1] == 0xFF)
            },
    ensures
        ({
            let path = nodes.flatten() + seq![0x7Fu8, 0xFFu8, low, high];
            let next = (UsbSearch::<Seq<usize>, Seq<u8>>::Check { handles, index }).spec_next(
                UsbSearchAnswer::Path(PathLookup::Present(path + tail)),
            );
            if exists|i: int|
                0 <= i < nodes.len() && (#[trigger] nodes[i])[0] == 3 && (nodes[i][1] == 5
                    || nodes[i][1] == 15 || nodes[i][1] == 16) {
                next == UsbSearch::<Seq<usize>, Seq<u8>>::Finished(Some(path))
            } else if index + 1 < handles.len() {
                next == (UsbSearch::<Seq<usize>, Seq<u8>>::Check {
                    handles,
                    index: (index + 1) as usize,
                })
            } else {
                next == UsbSearch::<Seq<usize>, Seq<u8>>::Finished(None)
            }
        }),
{
    let path = nodes.flatten() + seq![0x7Fu8, 0xFFu8, low, high];
    nodes_make_path(nodes, low, high, tail);
    assert((path + tail).take(path.len() as int) =~= path);
}

/// A handle whose lookup failed or gave no path is passed over: the next handle
/// is looked at, or nothing was found if there is none.
pub proof fn search_passes_over_missing_paths(handles: Seq<usize>, index: usize)
    requires
        index < handles.len() <= usize::MAX,
    ensures
        ({
            let check = UsbSearch::<Seq<usize>, Seq<u8>>::Check { handles, index };
            let next = if index + 1 < handles.len() {
                UsbSearch::<Seq<usize>, Seq<u8>>::Check { handles, index: (index + 1) as usize }
            } else {
                UsbSearch::Finished(None)
            };
            &&& check.spec_next(UsbSearchAnswer::Path(PathLookup::Failed)) == next
            &&& check.spec_next(UsbSearchAnswer::Path(PathLookup::Absent)) == next
        }),
{
}

/// The handles are those of mounted volumes, told by the GUID of simple file
/// systems; they are looked at from the first on, each for its device path,
/// told by the GUID of device paths.
pub proof fn search_looks_at_each_volume(handles: Seq<usize>, index: usize)
    requires
        index < handles.len() <= usize::MAX,
    ensures
        UsbSearch::<Seq<usize>, Seq<u8>>::Locate.spec_action() == UsbSearchAction::<
            Seq<u8>,
        >::LocateHandles(
            Guid {
                time_low: 0x964e5b22,
                time_mid: 0x6459,
                time_hi_and_version: 0x11d2,
                clk_seq_hi_res: 0x8e,
                clk_seq_low: 0x39,
                node: [0x00, 0xa0, 0xc9, 0x69, 0x72, 0x3b],
            },
        ),
        UsbSearch::Locate.spec_next(UsbSearchAnswer::Handles(Some(handles))) == (UsbSearch::<
            Seq<usize>,
            Seq<u8>,
        >::Check { handles, index: 0 }),
        (UsbSearch::<Seq<usize>, Seq<u8>>::Check { handles, index }).spec_action() == (
        UsbSearchAction::<Seq<u8>>::LookUpPath {
            handle: handles[index as int],
            protocol: Guid {
                time_low: 0x09576e91,
                time_mid: 0x6d3f,
                time_hi_and_version: 0x11d2,
                clk_seq_hi_res: 0x8e,
                clk_seq_low: 0x39,
                node: [0x00, 0xa0, 0xc9, 0x69, 0x72, 0x3b],
            },
        }),
{
}

/// Among handles of which every lookup that gave bytes gave a device path, the
/// search finds the path of the first one, just as it was given, that has a
/// messaging node (type 3) of sub-type 5, 15 or 16 among its nodes; it finds
/// nothing exactly if none has.
pub proof fn search_finds_first_path_with_usb_node(
    handles: Seq<usize>,
    lookups: spec_fn(usize) -> PathLookup<Seq<u8>>,
    first: int,
)
    requires
        handles.len() <= usize::MAX,
        forall|i: int|
            0 <= i < handles.len() ==> (lookups(#[trigger] handles[i]) matches PathLookup::Present(
                bytes,
            ) ==> is_device_path(bytes)),
        0 <= first <= handles.len(),
        forall|i: int|
            0 <= i < first ==> (lookups(#[trigger] handles[i]) matches PathLookup::Present(bytes)
                ==> forall|n: int|
                0 <= n < path_nodes(bytes).len() ==> !((#[trigger] path_nodes(bytes)[n])[0] == 3
                    && (path_nodes(bytes)[n][1] == 5 || path_nodes(bytes)[n][1] == 15
                    || path_nodes(bytes)[n][1] == 16))),
        first < handles.len() ==> (lookups(handles[first]) matches PathLookup::Present(bytes)
            && exists|n: int|
            0 <= n < path_nodes(bytes).len() && (#[trigger] path_nodes(bytes)[n])[0] == 3 && (
            path_nodes(bytes)[n][1] == 5 || path_nodes(bytes)[n][1] == 15
                || path_nodes(bytes)[n][1] == 16)),
    ensures
        ({
            let found = search_result(
                UsbSearch::Locate.spec_next(UsbSearchAnswer::Handles(Some(handles))),
                lookups,
            );
            if first < handles.len() {
                found matches Some(path) && lookups(handles[first]) == PathLookup::Present(path)
            } else {
                found is None
            }
        }),
{
    assert forall|i: int| 0 <= i < first implies usb_path(
        lookups(#[trigger] handles[i]),
    ) is None by {
        if let PathLookup::Present(bytes) = lookups(handles[i]) {
            path_size_of_device_path(bytes);
            assert(bytes.take(bytes.len() as int) =~= bytes);
            usb_nodes_by_number(bytes);
        }
    }
    if first < handles.len() {
        if let PathLookup::Present(bytes) = lookups(handles[first]) {
            path_size_of_device_path(bytes);
            assert(bytes.take(bytes.len() as int) =~= bytes);
            usb_nodes_by_number(bytes);
        }
        assert(is_first_usb(handles, lookups, first));
    }
    search_finds_first_usb(handles, lookups);
    let found = search_result(
        UsbSearch::Locate.spec_next(UsbSearchAnswer::Handles(Some(handles))),
        lookups,
    );
    if let Some(path) = found {
        let i = choose|i: int|
            is_first_usb(handles, lookups, i) && usb_path(lookups(#[trigger] handles[i])) == Some(
                path,
            );
        if first < handles.len() {
            first_usb_is_unique(handles, lookups, i, first);
        }
    }
}

/// Whatever bytes a lookup gave: with no end node that the lengths of the nodes
/// lead to, the handle is passed over, as it is without a USB node up to the
/// header of the end node; else the search ends with the bytes up to there.
pub proof fn search_goes_by_bytes(handles: Seq<usize>, index: usize, bytes: Seq<u8>)
    requires
        index < handles.len() <= usize::MAX,
    ensures
        ({
            let check = UsbSearch::<Seq<usize>, Seq<u8>>::Check { handles, index };
            let next = check.spec_next(UsbSearchAnswer::Path(PathLookup::Present(bytes)));
            let passed = check.spec_next(UsbSearchAnswer::Path(PathLookup::Failed));
            &&& closed_size(bytes) is None ==> next == passed
            &&& closed_size(bytes) matches Some(size) ==> {
                let path = bytes.take(size as int);
                &&& !has_usb_node(path) ==> next == passed
                &&& has_usb_node(path) ==> next == UsbSearch::<Seq<usize>, Seq<u8>>::Finished(
                    Some(path),
                )
            }
        }),
{
}

} // verus!
