//! Host-side tensor storage of the CANN backend, and the data type codes of its adapter.

use vstd::prelude::*;

use crate::operator_options::MLOperandDataType;

verus! {

/// CANN adapter code of a WebNN data type; types the adapter does not know map to the float
/// code 0.
pub open spec fn cann_dtype_code(data_type: MLOperandDataType) -> i32 {
    match data_type {
        MLOperandDataType::Float32 => 0,
        MLOperandDataType::Float16 => 1,
        MLOperandDataType::Int32 => 3,
        MLOperandDataType::Int8 => 2,
        MLOperandDataType::Uint8 => 4,
        MLOperandDataType::Int64 => 9,
        MLOperandDataType::Uint32 => 8,
        _ => 0,
    }
}

/// Map WebNN operand data type to CANN adapter enum
pub fn ml_operand_to_cann_dtype(data_type: MLOperandDataType) -> (r: i32)
    ensures
        r == cann_dtype_code(data_type),
{
    match data_type {
        MLOperandDataType::Float32 => 0,
        MLOperandDataType::Float16 => 1,
        MLOperandDataType::Int32 => 3,
        MLOperandDataType::Int8 => 2,
        MLOperandDataType::Uint8 => 4,
        MLOperandDataType::Int64 => 9,
        MLOperandDataType::Uint32 => 8,
        _ => 0,
    }
}

/// Kind of device a context runs on.
#[derive(Debug, Clone, Copy, PartialEq, Eq, Hash, Structural)]
pub enum DeviceType {
    Cpu,
    Gpu,
    Npu,
}

/// Options given when a context is created; the CANN context reads none of them.
#[derive(Debug, Clone, Copy, Default)]
pub struct RustNNOptions {}

/// A tensor of a context: its index among the context's tensors, whether it was created as a
/// constant, and the number of bytes its descriptor requires.
#[derive(Debug, Clone, Copy, PartialEq, Eq, Hash, Structural)]
pub struct MLTensor {
    pub id: usize,
    pub constant: bool,
    pub required_bytes: usize,
}

/// Errors of tensor creation, reads and writes.
#[derive(Debug, Clone, PartialEq, Eq)]
pub enum TensorError {
    /// A read whose buffer, or the tensor's storage, is smaller than the tensor's size.
    TensorReadError { tensor: usize, reason: String },
    /// A write of more bytes than the tensor stores.
    TensorWriteError { tensor: usize, reason: String },
    /// A constant tensor whose initial data could not be written.
    TensorCreationError { reason: String },
}

/// Host memory of one tensor.
#[derive(Debug)]
pub struct CannTensor {
    memory: Vec<u8>,
}

/// A CANN context: the host memory of each tensor it created, in creation order.
#[derive(Debug)]
pub struct CannContext {
    tensors: Vec<CannTensor>,
    device_type: DeviceType,
}

/// Memory of a tensor after `array` is written at its start.
pub open spec fn written(memory: Seq<u8>, array: Seq<u8>) -> Seq<u8> {
    array + memory.skip(array.len() as int)
}

/// `n` zero bytes.
pub open spec fn zeros(n: nat) -> Seq<u8> {
    Seq::new(n, |i: int| 0u8)
}

impl View for CannContext {
    type V = Seq<Seq<u8>>;

    closed spec fn view(&self) -> Seq<Seq<u8>> {
        self.tensors@.map_values(|t: CannTensor| t.memory@)
    }
}

impl CannContext {
    /// A context with no tensors on the given device.
    pub fn new_from_device_type(device_type: DeviceType, _options: Option<&RustNNOptions>) -> (r: Result<Self, TensorError>)
        ensures
            r matches Ok(c) && c@ == Seq::<Seq<u8>>::empty() && c.device_type() == device_type,
    {
        let c = CannContext { tensors: Vec::new(), device_type };
        assert(c@ =~= Seq::<Seq<u8>>::empty());
        Ok(c)
    }

    /// The device the context was created for.
    pub closed spec fn device_type(&self) -> DeviceType {
        self.device_type
    }

    /// CANN contexts run on an accelerator.
    pub fn accelerated(&self) -> (r: bool)
        ensures
            r,
    {
        true
    }

    /// Adds a tensor of `required_bytes` zero bytes and returns its handle.
    pub fn create_tensor(&mut self, required_bytes: usize) -> (r: Result<MLTensor, TensorError>)
        ensures
            final(self)@ == old(self)@.push(zeros(required_bytes as nat)),
            final(self).device_type() == old(self).device_type(),
            r matches Ok(t) && t.id == old(self)@.len() && !t.constant && t.required_bytes == required_bytes,
    {
        let memory = vec![0u8; required_bytes];
        proof {
            assert(memory@ =~= zeros(required_bytes as nat));
        }
        self.tensors.push(CannTensor { memory });
        proof {
            assert(self@ =~= old(self)@.push(zeros(required_bytes as nat)));
        }
        Ok(MLTensor { id: self.tensors.len() - 1, constant: false, required_bytes })
    }

    /// Adds a constant tensor of `required_bytes` bytes holding `input_data` at its start.
    pub fn create_constant_tensor(&mut self, required_bytes: usize, input_data: &[u8]) -> (r: Result<MLTensor, TensorError>)
        ensures
            final(self).device_type() == old(self).device_type(),
            match r {
                Ok(t) => input_data@.len() <= required_bytes && t.id == old(self)@.len() && t.constant
                    && t.required_bytes == required_bytes
                    && final(self)@ == old(self)@.push(written(zeros(required_bytes as nat), input_data@)),
                Err(e) => input_data@.len() > required_bytes && e is TensorCreationError
                    && final(self)@ == old(self)@.push(zeros(required_bytes as nat)),
            },
    {
        let mut tensor = self.create_tensor(required_bytes)?;
        tensor.constant = true;
        match self.write_tensor(&tensor, input_data) {
            Ok(()) => Ok(tensor),
            Err(_) => Err(TensorError::TensorCreationError { reason: "initial data exceeds tensor storage".to_owned() }),
        }
    }

    /// Copies the first `tensor.required_bytes` bytes of the tensor into `array`.
    pub fn read_tensor(&mut self, tensor: &MLTensor, array: &mut [u8]) -> (r: Result<(), TensorError>)
        requires
            tensor.id < old(self)@.len(),
        ensures
            final(self)@ == old(self)@,
            final(self).device_type() == old(self).device_type(),
            ({
                let memory = old(self)@[tensor.id as int];
                let logical = tensor.required_bytes as int;
                if old(array)@.len() < logical || memory.len() < logical {
                    &&& r matches Err(TensorError::TensorReadError { tensor: id, .. }) && id == tensor.id
                    &&& final(array)@ == old(array)@
                } else {
                    &&& r is Ok
                    &&& final(array)@ == memory.take(logical) + old(array)@.skip(logical)
                }
            }),
    {
        let logical = tensor.required_bytes;
        if array.len() < logical {
            return Err(TensorError::TensorReadError {
                tensor: tensor.id,
                reason: "buffer too small for the tensor's logical size".to_owned(),
            });
        }
        let host = &self.tensors[tensor.id].memory;
        if host.len() < logical {
            return Err(TensorError::TensorReadError {
                tensor: tensor.id,
                reason: "tensor storage shorter than logical size".to_owned(),
            });
        }
        let mut i: usize = 0;
        while i < logical
            invariant
                i <= logical,
                logical <= host@.len(),
                logical <= array@.len(),
                array@.len() == old(array)@.len(),
                host@ == old(self)@[tensor.id as int],
                forall|k: int| 0 <= k < i ==> #[trigger] array@[k] == host@[k],
                forall|k: int| i <= k < array@.len() ==> #[trigger] array@[k] == old(array)@[k],
            decreases logical - i,
        {
            array[i] = host[i];
            i = i + 1;
        }
        proof {
            assert(array@ =~= host@.take(logical as int) + old(array)@.skip(logical as int));
        }
        Ok(())
    }

    /// Copies `array` to the start of the tensor's memory.
    pub fn write_tensor(&mut self, tensor: &MLTensor, array: &[u8]) -> (r: Result<(), TensorError>)
        requires
            tensor.id < old(self)@.len(),
        ensures
            final(self).device_type() == old(self).device_type(),
            if array@.len() > old(self)@[tensor.id as int].len() {
                &&& r matches Err(TensorError::TensorWriteError { tensor: id, .. }) && id == tensor.id
                &&& final(self)@ == old(self)@
            } else {
                &&& r is Ok
                &&& final(self)@ == old(self)@.update(tensor.id as int, written(old(self)@[tensor.id as int], array@))
            },
    {
        let id = tensor.id;
        if array.len() > self.tensors[id].memory.len() {
            return Err(TensorError::TensorWriteError {
                tensor: id,
                reason: "write exceeds tensor storage".to_owned(),
            });
        }
        let mut memory: Vec<u8> = Vec::new();
        std::mem::swap(&mut memory, &mut self.tensors[id].memory);
        let ghost before = memory@;
        assert(before == old(self)@[id as int]);
        let mut i: usize = 0;
        while i < array.len()
            invariant
                i <= array@.len(),
                array@.len() <= before.len(),
                memory@.len() == before.len(),
                forall|k: int| 0 <= k < i ==> #[trigger] memory@[k] == array@[k],
                forall|k: int| i <= k < memory@.len() ==> #[trigger] memory@[k] == before[k],
            decreases array.len() - i,
        {
            memory.set(i, array[i]);
            i = i + 1;
        }
        assert(memory@ =~= written(before, array@));
        std::mem::swap(&mut memory, &mut self.tensors[id].memory);
        proof {
            assert(self@ =~= old(self)@.update(id as int, written(old(self)@[id as int], array@)));
        }
        Ok(())
    }
}

/// A write of a tensor's whole size followed by a read of it gives back the written bytes, and
/// leaves the other tensors as they were.
pub proof fn lemma_read_after_write(tensors: Seq<Seq<u8>>, id: int, array: Seq<u8>, buffer: Seq<u8>)
    requires
        0 <= id < tensors.len(),
        array.len() == tensors[id].len(),
        buffer.len() >= array.len(),
    ensures
        ({
            let after = tensors.update(id, written(tensors[id], array));
            &&& after[id].take(array.len() as int) + buffer.skip(array.len() as int)
                == array + buffer.skip(array.len() as int)
            &&& forall|j: int| 0 <= j < tensors.len() && j != id ==> after[j] == tensors[j]
        }),
{
    let after = tensors.update(id, written(tensors[id], array));
    assert(after[id].take(array.len() as int) =~= array);
}

} // verus!
