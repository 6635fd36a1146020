pub mod de;
pub mod error;
pub mod host;
pub mod laws;
pub mod model;
pub mod panics;
pub mod ser;
pub mod strutil;
pub mod value;

pub use de::{from_object, DeserializeWrapper, Deserializer};
pub use error::{Error, ErrorKind, IntoException, ResultExt};
pub use host::HostValue;
pub use panics::save_panic_message;
pub use ser::{
    new_ruby_object, MapSerializer, SeqSerializer, Serializer, TupleStructSerializer,
    TupleVariantSerializer,
};
pub use value::{Shape, Value, VariantShape};
