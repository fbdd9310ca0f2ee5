use vstd::prelude::*;

verus! {

/// Enum describing different kinds of vertical navigation
pub enum TatNavVertical {
    First,
    Last,
    DownOne,
    UpOne,
    DownHalfParagraph,
    UpHalfParagraph,
    DownParagraph,
    UpParagraph,
    Specific(i64),
    MouseScrollUp,
    MouseScrollDown,
}

/// Enum describing different kinds of horizontal navigation
pub enum TatNavHorizontal {
    Home,
    End,
    RightOne,
    LeftOne,
}

/// A struct which holds information about a coordinate reference system for displaying purposes
#[derive(Debug)]
pub struct TatCrs {
    auth_name: String,
    auth_code: i32,
    name: String,
}

impl TatCrs {
    /// The CRS authority name
    pub closed spec fn spec_auth_name(&self) -> Seq<char> {
        self.auth_name@
    }

    /// The CRS numerical code
    pub closed spec fn spec_auth_code(&self) -> i32 {
        self.auth_code
    }

    /// The name of the CRS
    pub closed spec fn spec_name(&self) -> Seq<char> {
        self.name@
    }

    /// Constructs a new object
    pub fn new(a_name: String, a_code: i32, crs_name: String) -> (crs: Self)
        ensures
            crs.spec_auth_name() == a_name@,
            crs.spec_auth_code() == a_code,
            crs.spec_name() == crs_name@,
    {
        Self { auth_name: a_name, auth_code: a_code, name: crs_name }
    }

    /// Constructs a new object from what a spatial reference reports of itself: its authority
    /// name, its authority code and its name. A CRS is only made when all three are known.
    pub fn from_spatial_ref(
        auth_name: Option<String>,
        auth_code: Option<i32>,
        name: Option<String>,
    ) -> (crs: Option<Self>)
        ensures
            crs is Some <==> (auth_name is Some && auth_code is Some && name is Some),
            crs is Some ==> {
                &&& crs->0.spec_auth_name() == auth_name->0@
                &&& crs->0.spec_auth_code() == auth_code->0
                &&& crs->0.spec_name() == name->0@
            },
    {
        let aname = match auth_name {
            Some(a_name) => a_name,
            None => return None,
        };
        let acode = match auth_code {
            Some(a_code) => a_code,
            None => return None,
        };
        let cname = match name {
            Some(c_name) => c_name,
            None => return None,
        };
        Some(TatCrs::new(aname, acode, cname))
    }

    /// Returns the CRS authority name (e.g. EPSG etc.)
    pub fn auth_name(&self) -> (r: &str)
        ensures
            r@ == self.spec_auth_name(),
    {
        self.auth_name.as_str()
    }

    /// Returns the CRS numerical code (e.g. 4326)
    pub fn auth_code(&self) -> (r: i32)
        ensures
            r == self.spec_auth_code(),
    {
        self.auth_code
    }

    /// Return the name of the CRS
    pub fn name(&self) -> (r: &str)
        ensures
            r@ == self.spec_name(),
    {
        self.name.as_str()
    }
}

/// A struct describing a field in a GDAL layer for displaying purposes
#[derive(Debug)]
pub struct TatField {
    name: String,
    dtype: u32,
}

impl TatField {
    /// The name of the field
    pub closed spec fn spec_name(&self) -> Seq<char> {
        self.name@
    }

    /// The data type of the field
    pub closed spec fn spec_dtype(&self) -> u32 {
        self.dtype
    }

    /// Constructs a new object
    pub fn new(name: String, dtype: u32) -> (f: Self)
        ensures
            f.spec_name() == name@,
            f.spec_dtype() == dtype,
    {
        Self { name, dtype }
    }

    /// Returns the name of the field
    pub fn name(&self) -> (r: &str)
        ensures
            r@ == self.spec_name(),
    {
        self.name.as_str()
    }

    /// Returns the data type of the field as a u32, which can be turned into a string using
    /// GDAL's field type names
    pub fn dtype(&self) -> (r: u32)
        ensures
            r == self.spec_dtype(),
    {
        self.dtype
    }
}

/// A struct describing a geometry field in a GDAL layer for displaying purposes
#[derive(Debug)]
pub struct TatGeomField {
    name: String,
    geom_type: String,
    crs: Option<TatCrs>,
}

impl TatGeomField {
    /// The field's name
    pub closed spec fn spec_name(&self) -> Seq<char> {
        self.name@
    }

    /// The field's geometry type
    pub closed spec fn spec_geom_type(&self) -> Seq<char> {
        self.geom_type@
    }

    /// The field's CRS
    pub closed spec fn spec_crs(&self) -> Option<TatCrs> {
        self.crs
    }

    /// Constructs a new object
    pub fn new(name: String, geom_type: String, crs: Option<TatCrs>) -> (f: Self)
        ensures
            f.spec_name() == name@,
            f.spec_geom_type() == geom_type@,
            f.spec_crs() == crs,
    {
        Self { name, geom_type, crs }
    }

    /// Returns the field's name
    pub fn name(&self) -> (r: &str)
        ensures
            r@ == self.spec_name(),
    {
        self.name.as_str()
    }

    /// Returns the field's geometry type as a string slice
    pub fn geom_type(&self) -> (r: &str)
        ensures
            r@ == self.spec_geom_type(),
    {
        self.geom_type.as_str()
    }

    /// Returns the field's CRS (if any)
    pub fn crs(&self) -> (r: Option<&TatCrs>)
        ensures
            r == match self.spec_crs() {
                Some(c) => Some(&c),
                None => None::<&TatCrs>,
            },
    {
        self.crs.as_ref()
    }
}

} // verus!
