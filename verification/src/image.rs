//! Mach-O images and symbol resolution.
//!
//! Each operation receives the foreign call it needs as a closure; its contract
//! states which arguments the call receives and what the operation returns for
//! every answer of the call. Names and paths are addresses of C strings.

use vstd::prelude::*;
use crate::error::{Error, Result};

verus! {

/// An open Mach-O image, designated by the address of its header.
///
/// Closing the image when it is no longer needed is the platform glue's part.
#[derive(Debug)]
pub struct Image {
    header: usize,
}

impl View for Image {
    type V = usize;

    /// Address of the image's Mach-O header.
    closed spec fn view(&self) -> usize {
        self.header
    }
}

/// What opening an image returns once the open call answered `header`.
pub open spec fn image_outcome(r: Result<Image>, header: usize, on_null: Error) -> bool {
    if header == 0 {
        r == Err::<Image, Error>(on_null)
    } else {
        r matches Ok(image) && image@ == header
    }
}

/// What a symbol lookup returns once the lookup answered `symbol`.
pub open spec fn symbol_outcome(r: Result<usize>, symbol: usize) -> bool {
    if symbol == 0 {
        r == Err::<usize, Error>(Error::SymbolNotFound)
    } else {
        r == Ok::<usize, Error>(symbol)
    }
}

/// The output table after `LHFindSymbols`: the slots it wrote take the new values,
/// the others keep their old ones.
pub open spec fn merged_output(before: Seq<usize>, written: Seq<usize>) -> Seq<usize> {
    Seq::new(before.len(), |i: int| if i < written.len() { written[i] } else { before[i] })
}

impl Image {
    /// An open image always has a non-null header.
    #[verifier::type_invariant]
    closed spec fn has_header(self) -> bool {
        self.header != 0
    }

    /// Open the Mach-O image at `path`; `lh_open_image(path)` answers the header address.
    pub fn open<F>(path: usize, lh_open_image: F) -> (r: Result<Self>) where F: FnOnce(usize) -> usize
        requires
            path != 0 ==> call_requires(lh_open_image, (path,)),
        ensures
            path == 0 ==> r == Err::<Self, Error>(Error::NullPointer),
            path != 0 ==> exists|header: usize|
                #[trigger] call_ensures(lh_open_image, (path,), header) && image_outcome(
                    r,
                    header,
                    Error::Other("Failed to open image"),
                ),
    {
        if path == 0 {
            return Err(Error::NullPointer);
        }
        let header = lh_open_image(path);
        if header == 0 {
            return Err(Error::Other("Failed to open image"));
        }
        Ok(Image { header })
    }

    /// Open a loaded image by name; `ms_get_image_by_name(name)` answers the header address.
    pub fn open_by_name<F>(name: usize, ms_get_image_by_name: F) -> (r: Result<Self>) where
        F: FnOnce(usize) -> usize,
        requires
            name != 0 ==> call_requires(ms_get_image_by_name, (name,)),
        ensures
            name == 0 ==> r == Err::<Self, Error>(Error::NullPointer),
            name != 0 ==> exists|header: usize|
                #[trigger] call_ensures(ms_get_image_by_name, (name,), header) && image_outcome(
                    r,
                    header,
                    Error::Other("Image not found"),
                ),
    {
        if name == 0 {
            return Err(Error::NullPointer);
        }
        let header = ms_get_image_by_name(name);
        if header == 0 {
            return Err(Error::Other("Image not found"));
        }
        Ok(Image { header })
    }

    /// Address of the image's Mach-O header.
    pub fn as_ptr(&self) -> (r: usize)
        ensures
            r == self@,
            r != 0,
    {
        proof {
            use_type_invariant(self);
        }
        self.header
    }

    /// Resolve the symbol `name` in this image; `ms_find_symbol(header, name)` answers
    /// its address.
    pub fn find_symbol<F>(&self, name: usize, ms_find_symbol: F) -> (r: Result<usize>) where
        F: FnOnce(usize, usize) -> usize,
        requires
            name != 0 ==> call_requires(ms_find_symbol, (self@, name)),
        ensures
            self@ != 0,
            name == 0 ==> r == Err::<usize, Error>(Error::NullPointer),
            name != 0 ==> exists|symbol: usize|
                #[trigger] call_ensures(ms_find_symbol, (self@, name), symbol) && symbol_outcome(
                    r,
                    symbol,
                ),
    {
        proof {
            use_type_invariant(self);
        }
        if name == 0 {
            return Err(Error::NullPointer);
        }
        let symbol = ms_find_symbol(self.header, name);
        if symbol == 0 {
            return Err(Error::SymbolNotFound);
        }
        Ok(symbol)
    }

    /// Resolve several symbols of this image at once, writing their addresses into
    /// `output` in the order of `symbol_names`.
    ///
    /// `lh_find_symbols(header, names, output)` receives the output table as it
    /// stands and answers whether every symbol was found together with the table
    /// after its writes.
    pub fn find_symbols<F>(&self, symbol_names: &[usize], output: &mut [usize], lh_find_symbols: F) -> (r:
        Result<()>) where F: FnOnce(usize, &[usize], Vec<usize>) -> (bool, Vec<usize>)
        requires
            symbol_names@.len() == old(output)@.len() ==> forall|before: Vec<usize>|
                before@ == old(output)@ ==> #[trigger] call_requires(
                    lh_find_symbols,
                    (self@, symbol_names, before),
                ),
        ensures
            self@ != 0,
            symbol_names@.len() != old(output)@.len() ==> r == Err::<(), Error>(
                Error::Other("Symbol names and output arrays must have same length"),
            ) && final(output)@ == old(output)@,
            symbol_names@.len() == old(output)@.len() ==> exists|before: Vec<usize>, answer: (bool, Vec<usize>)|
                #![trigger call_ensures(lh_find_symbols, (self@, symbol_names, before), answer)]
                {
                    &&& before@ == old(output)@
                    &&& call_ensures(lh_find_symbols, (self@, symbol_names, before), answer)
                    &&& final(output)@ == merged_output(old(output)@, answer.1@)
                    &&& answer.0 ==> r == Ok::<(), Error>(())
                    &&& !answer.0 ==> r == Err::<(), Error>(Error::SymbolNotFound)
                },
    {
        proof {
            use_type_invariant(self);
        }
        if symbol_names.len() != output.len() {
            return Err(Error::Other("Symbol names and output arrays must have same length"));
        }
        let ghost initial = output@;
        let mut before: Vec<usize> = Vec::new();
        let mut i: usize = 0;
        while i < output.len()
            invariant
                output@ == initial,
                i <= initial.len(),
                before@ =~= initial.subrange(0, i as int),
            decreases initial.len() - i,
        {
            before.push(output[i]);
            i = i + 1;
        }
        assert(before@ =~= old(output)@);
        let ghost before_call = before;
        assert(call_requires(lh_find_symbols, (self@, symbol_names, before)));
        let answer = lh_find_symbols(self.header, symbol_names, before);
        assert(call_ensures(lh_find_symbols, (self@, symbol_names, before_call), answer));
        let found = answer.0;
        let written = answer.1;
        let mut j: usize = 0;
        while j < output.len()
            invariant
                output@.len() == initial.len(),
                j <= initial.len(),
                forall|k: int| 0 <= k < j ==> output@[k] == #[trigger] merged_output(initial, written@)[k],
                forall|k: int| j <= k < initial.len() ==> output@[k] == initial[k],
            decreases initial.len() - j,
        {
            if j < written.len() {
                output[j] = written[j];
            }
            j = j + 1;
        }
        assert(output@ =~= merged_output(initial, written@));
        if found {
            Ok(())
        } else {
            Err(Error::SymbolNotFound)
        }
    }
}

/// Resolve the symbol `name` in every loaded image; `ms_find_symbol(0, name)`
/// answers its address.
pub fn find_symbol<F>(name: usize, ms_find_symbol: F) -> (r: Result<usize>) where
    F: FnOnce(usize, usize) -> usize,
    requires
        name != 0 ==> call_requires(ms_find_symbol, (0usize, name)),
    ensures
        name == 0 ==> r == Err::<usize, Error>(Error::NullPointer),
        name != 0 ==> exists|symbol: usize|
            #[trigger] call_ensures(ms_find_symbol, (0usize, name), symbol) && symbol_outcome(r, symbol),
{
    if name == 0 {
        return Err(Error::NullPointer);
    }
    let symbol = ms_find_symbol(0usize, name);
    if symbol == 0 {
        return Err(Error::SymbolNotFound);
    }
    Ok(symbol)
}

} // verus!
