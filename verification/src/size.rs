//! Terminal sizes.

use vstd::prelude::*;
use vstd::string::*;

use crate::error::{Error, ErrorContext, Result};
use crate::text::{decimal, push_decimal};

verus! {

/// Whether `n` is a dimension that a terminal can have.
pub open spec fn valid_dimension(n: u16) -> bool {
    1 <= n <= Size::MAX_DIMENSION
}

/// A terminal size, in character cells, of which both dimensions are valid.
#[derive(Debug, Clone, Copy, PartialEq, Eq, Hash, Structural)]
pub struct Size {
    rows: u16,
    cols: u16,
}

impl Size {
    /// The largest value of either dimension.
    ///
    /// `ConPTY`'s `COORD` stores dimensions as `i16`, so anything larger cannot
    /// be represented.
    pub const MAX_DIMENSION: u16 = 32767;

    /// The number of rows.
    pub closed spec fn spec_rows(&self) -> u16 {
        self.rows
    }

    /// The number of columns.
    pub closed spec fn spec_cols(&self) -> u16 {
        self.cols
    }

    #[verifier::type_invariant]
    spec fn inv(self) -> bool {
        valid_dimension(self.rows) && valid_dimension(self.cols)
    }

    /// Creates a `Size`, validating both dimensions.
    ///
    /// # Errors
    ///
    /// An error of kind `InvalidSize` if and only if either dimension is `0`
    /// or greater than [`Size::MAX_DIMENSION`].
    pub fn try_new(rows: u16, cols: u16) -> (size: Result<Size>)
        ensures
            size is Ok <==> valid_dimension(rows) && valid_dimension(cols),
            size is Ok ==> size->Ok_0.spec_rows() == rows && size->Ok_0.spec_cols() == cols,
            size is Err ==> size->Err_0@ == (ErrorContext::InvalidSize { rows, cols }),
    {
        if rows == 0 || cols == 0 || rows > Size::MAX_DIMENSION || cols > Size::MAX_DIMENSION {
            return Err(Error::invalid_size(rows, cols));
        }
        Ok(Size { rows, cols })
    }

    /// Returns the number of rows (screen buffer height).
    #[verifier::when_used_as_spec(spec_rows)]
    pub fn rows(&self) -> (rows: u16)
        ensures
            rows == self.spec_rows(),
            valid_dimension(rows),
    {
        proof {
            use_type_invariant(self);
        }
        self.rows
    }

    /// Returns the number of columns (screen buffer width).
    #[verifier::when_used_as_spec(spec_cols)]
    pub fn cols(&self) -> (cols: u16)
        ensures
            cols == self.spec_cols(),
            valid_dimension(cols),
    {
        proof {
            use_type_invariant(self);
        }
        self.cols
    }

    /// Returns `(rows, cols)` as `i16`, in that order, for building a `ConPTY`
    /// `COORD` (`COORD.Y` = rows, `COORD.X` = cols).
    ///
    /// The conversion never truncates.
    pub fn to_i16_pair(self) -> (pair: (i16, i16))
        ensures
            pair.0 == self.spec_rows(),
            pair.1 == self.spec_cols(),
    {
        proof {
            use_type_invariant(&self);
        }
        (self.rows as i16, self.cols as i16)
    }

    /// Returns the size as text, columns first: `80x24`.
    pub fn to_string(&self) -> (text: String)
        ensures
            text@ == decimal(self.spec_cols() as nat) + "x"@ + decimal(self.spec_rows() as nat),
    {
        let mut text = String::new();
        push_decimal(&mut text, self.cols as u64);
        assert(text@ =~= decimal(self.spec_cols() as nat));
        text.append("x");
        push_decimal(&mut text, self.rows as u64);
        text
    }
}

/// A size is its dimensions: two sizes with equal rows and columns are equal.
pub proof fn size_is_its_dimensions(a: Size, b: Size)
    requires
        a.spec_rows() == b.spec_rows(),
        a.spec_cols() == b.spec_cols(),
    ensures
        a == b,
{
}

impl Default for Size {
    /// Returns the conventional terminal size of 24 rows by 80 columns.
    fn default() -> (size: Size)
        ensures
            size.spec_rows() == 24,
            size.spec_cols() == 80,
    {
        Size { rows: 24, cols: 80 }
    }
}

/// A dimension is one exactly where it is at least one and fits a signed sixteen
/// bit number.
pub proof fn dimensions_fit_a_signed_word(n: u16)
    ensures
        valid_dimension(n) <==> n != 0 && n <= 0x7FFF,
{
}

} // verus!
